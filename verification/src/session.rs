//! A session as plain values, and what each key makes of it.
//!
//! A session is either selecting, where the arrow keys move a focus over
//! the three lists, or modifying, where the keys edit the fields of the row
//! that was chosen. Every move is a function of the session before it.

use vstd::prelude::*;
use crate::gmsh_ctl::PhysGroup;
use crate::gmsh_ctl::Store;

verus! {

/// The list that has the focus.
#[derive(Clone, Copy, Debug, PartialEq, Eq, Structural)]
pub enum TypeMode {
    NoneSelected,
    Volume,
    Surface,
    Mesh,
}

/// Whether the keys move the focus or edit a row.
#[derive(Clone, Copy, Debug, PartialEq, Eq, Structural)]
pub enum OperaMode {
    Select,
    Modify,
}

/// The field that the caret is in.
#[derive(Clone, Copy, Debug, PartialEq, Eq, Structural)]
pub enum ModifyType {
    VolName,
    VolPID,
    VolVID,
    SurName,
    SurPID,
    SurSID,
    MeshVal,
    NoField,
}

/// What a key event is about.
#[derive(Clone, Copy, Debug, PartialEq, Eq, Structural)]
pub enum KeyCode {
    Char(char),
    Up,
    Down,
    Left,
    Right,
    Enter,
    Esc,
    Tab,
    Backspace,
    Delete,
    Other,
}

/// Whether a key went down, is held, or came up.
#[derive(Clone, Copy, Debug, PartialEq, Eq, Structural)]
pub enum KeyEventKind {
    Press,
    Repeat,
    Release,
}

/// One event of the keyboard.
#[derive(Clone, Copy, Debug, PartialEq, Eq, Structural)]
pub struct KeyEvent {
    pub code: KeyCode,
    pub kind: KeyEventKind,
}

/// What the caller is to do after a key was handled.
#[derive(Clone, Copy, Debug, PartialEq, Eq, Structural)]
pub enum Action {
    /// Go on with the next key.
    Proceed,
    /// Hand the script of the store to a new run of the mesher.
    ApplyMesh,
}

/// The caret: the field it is in and the number of characters before it.
#[derive(Clone, Copy, Debug)]
pub struct Cursor {
    pub char_idx: usize,
    pub modify_type: ModifyType,
}

/// A session as plain values.
pub struct Session {
    pub exit: bool,
    pub store: Store,
    pub group: TypeMode,
    pub selected: Option<int>,
    pub mode: OperaMode,
    pub fields: Seq<Seq<char>>,
    pub active: ModifyType,
    pub caret: int,
}

/// The texts that a list of strings holds, in order.
pub open spec fn texts(buf: Seq<String>) -> Seq<Seq<char>> {
    Seq::new(buf.len(), |i: int| buf[i]@)
}

/// The highest row that can be selected in a list: the row after the last
/// group of volumes or surfaces, where a new group is added, and the one
/// row of the mesh settings.
pub open spec fn last_row(store: Store, group: TypeMode) -> int {
    match group {
        TypeMode::Volume => store.volumes.len() as int,
        TypeMode::Surface => store.surfaces.len() as int,
        _ => 0,
    }
}

/// Whether a selection is one that the list with the focus has: no list has
/// no selection, and a row lies between the first and the last row.
pub open spec fn selection_in_range(store: Store, group: TypeMode, selected: Option<int>) -> bool {
    match selected {
        None => true,
        Some(row) => group != TypeMode::NoneSelected && 0 <= row <= last_row(store, group),
    }
}

/// The place of a field in the buffer.
pub open spec fn slot(field: ModifyType) -> int {
    match field {
        ModifyType::VolName | ModifyType::SurName => 0,
        ModifyType::VolPID | ModifyType::SurPID | ModifyType::MeshVal => 1,
        ModifyType::VolVID | ModifyType::SurSID => 2,
        ModifyType::NoField => 0,
    }
}

/// The list whose rows have the field.
pub open spec fn owner(field: ModifyType) -> TypeMode {
    match field {
        ModifyType::VolName | ModifyType::VolPID | ModifyType::VolVID => TypeMode::Volume,
        ModifyType::SurName | ModifyType::SurPID | ModifyType::SurSID => TypeMode::Surface,
        ModifyType::MeshVal => TypeMode::Mesh,
        ModifyType::NoField => TypeMode::NoneSelected,
    }
}

/// The number of fields in the buffer while a row of the list is edited.
pub open spec fn field_count(group: TypeMode) -> int {
    match group {
        TypeMode::Volume | TypeMode::Surface => 3,
        TypeMode::Mesh => 2,
        TypeMode::NoneSelected => 0,
    }
}

/// What holds of every session: the selection is in range; while selecting
/// there is no buffer; while modifying a row is selected, the buffer has the
/// fields of that row's list, and the caret is in one of them.
pub open spec fn valid(s: Session) -> bool {
    &&& selection_in_range(s.store, s.group, s.selected)
    &&& match s.mode {
        OperaMode::Select => s.active == ModifyType::NoField && s.fields.len() == 0 && s.caret == 0,
        OperaMode::Modify => {
            &&& s.selected is Some
            &&& s.active != ModifyType::NoField
            &&& owner(s.active) == s.group
            &&& s.fields.len() == field_count(s.group)
            &&& 0 <= s.caret <= s.fields[slot(s.active)].len()
        },
    }
}

/// The session before any key: nothing has the focus and nothing is edited.
pub open spec fn fresh(store: Store) -> Session {
    Session {
        exit: false,
        store,
        group: TypeMode::NoneSelected,
        selected: None,
        mode: OperaMode::Select,
        fields: Seq::empty(),
        active: ModifyType::NoField,
        caret: 0,
    }
}

/// The session after the down key, while selecting. With no row selected
/// the first row is; from nowhere the focus goes to the volumes. From a row
/// the selection moves one down, and from the last row it is given up.
pub open spec fn after_down(s: Session) -> Session {
    if s.mode == OperaMode::Modify {
        s
    } else {
        match s.selected {
            Some(row) => if row < last_row(s.store, s.group) {
                Session { selected: Some(row + 1), ..s }
            } else {
                Session { selected: None, ..s }
            },
            None => if s.group == TypeMode::NoneSelected {
                Session { group: TypeMode::Volume, selected: Some(0), ..s }
            } else {
                Session { selected: Some(0), ..s }
            },
        }
    }
}

/// The session after the up key, while selecting. With no row selected the
/// last row is; from nowhere the focus goes to the volumes. From a row the
/// selection moves one up, and from the first row it is given up.
pub open spec fn after_up(s: Session) -> Session {
    if s.mode == OperaMode::Modify {
        s
    } else {
        match s.selected {
            Some(row) => if row > 0 {
                Session { selected: Some(row - 1), ..s }
            } else {
                Session { selected: None, ..s }
            },
            None => if s.group == TypeMode::NoneSelected {
                Session {
                    group: TypeMode::Volume,
                    selected: Some(last_row(s.store, TypeMode::Volume)),
                    ..s
                }
            } else {
                Session { selected: Some(last_row(s.store, s.group)), ..s }
            },
        }
    }
}

/// The list to the right of a list; after the last comes nowhere.
pub open spec fn right_of(group: TypeMode) -> TypeMode {
    match group {
        TypeMode::NoneSelected => TypeMode::Volume,
        TypeMode::Volume => TypeMode::Surface,
        TypeMode::Surface => TypeMode::Mesh,
        TypeMode::Mesh => TypeMode::NoneSelected,
    }
}

/// The list to the left of a list.
pub open spec fn left_of(group: TypeMode) -> TypeMode {
    match group {
        TypeMode::NoneSelected => TypeMode::Mesh,
        TypeMode::Volume => TypeMode::NoneSelected,
        TypeMode::Surface => TypeMode::Volume,
        TypeMode::Mesh => TypeMode::Surface,
    }
}

/// The selection that the focus arrives with in a list: none at nowhere,
/// the one row of the mesh settings, and among volumes or surfaces the row
/// it came with, or the last row where that one lies beyond it, or the
/// first row where it came with none.
pub open spec fn entering(store: Store, group: TypeMode, carried: Option<int>) -> Option<int> {
    match group {
        TypeMode::NoneSelected => None,
        TypeMode::Mesh => Some(0),
        _ => match carried {
            None => Some(0),
            Some(row) => if row > last_row(store, group) {
                Some(last_row(store, group))
            } else {
                Some(row)
            },
        },
    }
}

/// The session with the focus moved to `group`.
pub open spec fn focused(s: Session, group: TypeMode) -> Session {
    Session { group, selected: entering(s.store, group, s.selected), ..s }
}

/// The session after the right key, while selecting.
pub open spec fn after_right(s: Session) -> Session {
    if s.mode == OperaMode::Modify {
        s
    } else {
        focused(s, right_of(s.group))
    }
}

/// The session after the left key, while selecting.
pub open spec fn after_left(s: Session) -> Session {
    if s.mode == OperaMode::Modify {
        s
    } else {
        focused(s, left_of(s.group))
    }
}

/// An ASCII decimal digit.
pub open spec fn is_digit(ch: char) -> bool {
    '0' <= ch <= '9'
}

/// Whether a field takes a character: a name takes any, a tag digits, a
/// list of members digits and the comma, the mesh size digits and the dot.
pub open spec fn accepted(field: ModifyType, ch: char) -> bool {
    match field {
        ModifyType::VolName | ModifyType::SurName => true,
        ModifyType::VolPID | ModifyType::SurPID => is_digit(ch),
        ModifyType::VolVID | ModifyType::SurSID => is_digit(ch) || ch == ',',
        ModifyType::MeshVal => is_digit(ch) || ch == '.',
        ModifyType::NoField => false,
    }
}

/// The field after a field, in the round that the tab key makes through the
/// fields of a row. The mesh size is alone in its round.
pub open spec fn next_field(field: ModifyType) -> ModifyType {
    match field {
        ModifyType::VolName => ModifyType::VolPID,
        ModifyType::VolPID => ModifyType::VolVID,
        ModifyType::VolVID => ModifyType::VolName,
        ModifyType::SurName => ModifyType::SurPID,
        ModifyType::SurPID => ModifyType::SurSID,
        ModifyType::SurSID => ModifyType::SurName,
        ModifyType::MeshVal => ModifyType::MeshVal,
        ModifyType::NoField => ModifyType::NoField,
    }
}

/// The field before a field, in the same round.
pub open spec fn prev_field(field: ModifyType) -> ModifyType {
    match field {
        ModifyType::VolName => ModifyType::VolVID,
        ModifyType::VolPID => ModifyType::VolName,
        ModifyType::VolVID => ModifyType::VolPID,
        ModifyType::SurName => ModifyType::SurSID,
        ModifyType::SurPID => ModifyType::SurName,
        ModifyType::SurSID => ModifyType::SurPID,
        ModifyType::MeshVal => ModifyType::MeshVal,
        ModifyType::NoField => ModifyType::NoField,
    }
}

/// Whether the caret can leave the field for another: it can among the
/// fields of a volume or surface group.
pub open spec fn in_round(field: ModifyType) -> bool {
    owner(field) == TypeMode::Volume || owner(field) == TypeMode::Surface
}

/// The text of the field that the caret is in.
pub open spec fn active_text(s: Session) -> Seq<char> {
    s.fields[slot(s.active)]
}

/// The session with another text in the field that the caret is in.
pub open spec fn with_active_text(s: Session, text: Seq<char>, caret: int) -> Session {
    Session { fields: s.fields.update(slot(s.active), text), caret, ..s }
}

/// The session after a character is typed. A character that the field
/// takes goes in at the caret, which moves behind it; any other is dropped.
pub open spec fn after_insert(s: Session, ch: char) -> Session {
    if accepted(s.active, ch) {
        with_active_text(s, active_text(s).insert(s.caret, ch), s.caret + 1)
    } else {
        s
    }
}

/// The session after the backspace key, while modifying: the character
/// before the caret goes, and the caret moves back by one.
pub open spec fn after_backspace(s: Session) -> Session {
    if s.active != ModifyType::NoField && s.caret > 0 {
        with_active_text(s, active_text(s).remove(s.caret - 1), s.caret - 1)
    } else {
        s
    }
}

/// The session after the delete key, while modifying: the character at the
/// caret goes, and the caret stays.
pub open spec fn after_delete(s: Session) -> Session {
    if s.active != ModifyType::NoField && s.caret < active_text(s).len() {
        with_active_text(s, active_text(s).remove(s.caret), s.caret)
    } else {
        s
    }
}

/// The session after the left key, while modifying: the caret moves back by
/// one, and from the start of a field to the end of the field before it.
pub open spec fn after_cursor_left(s: Session) -> Session {
    if s.active == ModifyType::NoField {
        s
    } else if s.caret > 0 {
        Session { caret: s.caret - 1, ..s }
    } else if in_round(s.active) {
        Session {
            active: prev_field(s.active),
            caret: s.fields[slot(prev_field(s.active))].len() as int,
            ..s
        }
    } else {
        s
    }
}

/// The session after the right key, while modifying: the caret moves on by
/// one, and from the end of a field to the start of the field after it.
pub open spec fn after_cursor_right(s: Session) -> Session {
    if s.active == ModifyType::NoField {
        s
    } else if s.caret < active_text(s).len() {
        Session { caret: s.caret + 1, ..s }
    } else if in_round(s.active) {
        Session { active: next_field(s.active), caret: 0, ..s }
    } else {
        s
    }
}

/// The session after the tab key: the caret goes to the end of the next
/// field of the round.
pub open spec fn after_tab(s: Session) -> Session {
    if in_round(s.active) {
        Session {
            active: next_field(s.active),
            caret: s.fields[slot(next_field(s.active))].len() as int,
            ..s
        }
    } else {
        s
    }
}

/// The fields that the buffer starts with for a row of volumes or
/// surfaces: those of the group in that row, or three empty ones for the
/// row after the last.
pub open spec fn row_fields(groups: Seq<PhysGroup>, row: int) -> Seq<Seq<char>> {
    if 0 <= row < groups.len() {
        seq![groups[row].name, groups[row].phys_id, groups[row].ids]
    } else {
        seq![Seq::empty(), Seq::empty(), Seq::empty()]
    }
}

/// The label of the mesh size.
pub open spec fn size_label() -> Seq<char> {
    "MaxSize"@
}

/// The session after the enter key, while selecting: the selected row is
/// opened for modifying, with the caret at the end of its first field that
/// can be edited. Without a selected row nothing changes.
pub open spec fn after_open(s: Session) -> Session {
    if s.mode == OperaMode::Modify {
        s
    } else {
        match (s.group, s.selected) {
            (TypeMode::Volume, Some(row)) => Session {
                mode: OperaMode::Modify,
                fields: row_fields(s.store.volumes, row),
                active: ModifyType::VolName,
                caret: row_fields(s.store.volumes, row)[0].len() as int,
                ..s
            },
            (TypeMode::Surface, Some(row)) => Session {
                mode: OperaMode::Modify,
                fields: row_fields(s.store.surfaces, row),
                active: ModifyType::SurName,
                caret: row_fields(s.store.surfaces, row)[0].len() as int,
                ..s
            },
            (TypeMode::Mesh, Some(row)) => Session {
                mode: OperaMode::Modify,
                fields: seq![size_label(), s.store.max_size],
                active: ModifyType::MeshVal,
                caret: s.store.max_size.len() as int,
                ..s
            },
            _ => s,
        }
    }
}

/// The session with the buffer closed.
pub open spec fn closed(s: Session) -> Session {
    Session {
        mode: OperaMode::Select,
        fields: Seq::empty(),
        active: ModifyType::NoField,
        caret: 0,
        ..s
    }
}

/// The groups with `g` in the given row: in place of the group that was
/// there, or behind the last where the row is the one after it.
pub open spec fn put(groups: Seq<PhysGroup>, row: int, g: PhysGroup) -> Seq<PhysGroup> {
    if 0 <= row < groups.len() {
        groups.update(row, g)
    } else {
        groups.push(g)
    }
}

/// The group that three fields describe.
pub open spec fn group_of(fields: Seq<Seq<char>>) -> PhysGroup {
    PhysGroup { name: fields[0], phys_id: fields[1], ids: fields[2] }
}

/// The store after the buffer is written to the selected row.
pub open spec fn committed_store(s: Session) -> Store {
    match (s.group, s.selected) {
        (TypeMode::Volume, Some(row)) => Store {
            volumes: put(s.store.volumes, row, group_of(s.fields)),
            ..s.store
        },
        (TypeMode::Surface, Some(row)) => Store {
            surfaces: put(s.store.surfaces, row, group_of(s.fields)),
            ..s.store
        },
        (TypeMode::Mesh, Some(row)) => Store { max_size: s.fields[1], ..s.store },
        _ => s.store,
    }
}

/// The session after the enter key, while modifying: the buffer is written
/// to the selected row and closed.
pub open spec fn after_commit(s: Session) -> Session {
    if s.mode == OperaMode::Modify {
        closed(Session { store: committed_store(s), ..s })
    } else {
        s
    }
}

/// The session after the escape key, while modifying: the buffer is closed
/// and the store is as it was.
pub open spec fn after_discard(s: Session) -> Session {
    closed(s)
}

/// The session after the backspace or delete key, while selecting: the
/// group in the selected row of volumes or surfaces is removed. The row
/// after the last holds no group, and the mesh settings stay.
pub open spec fn after_remove(s: Session) -> Session {
    if s.mode == OperaMode::Modify {
        s
    } else {
        match (s.group, s.selected) {
            (TypeMode::Volume, Some(row)) => if 0 <= row < s.store.volumes.len() {
                Session { store: Store { volumes: s.store.volumes.remove(row), ..s.store }, ..s }
            } else {
                s
            },
            (TypeMode::Surface, Some(row)) => if 0 <= row < s.store.surfaces.len() {
                Session { store: Store { surfaces: s.store.surfaces.remove(row), ..s.store }, ..s }
            } else {
                s
            },
            _ => s,
        }
    }
}

/// The session after a key event. Only a key that went down counts. While
/// selecting, escape ends the session, the arrows move the focus, enter
/// opens the selected row, backspace and delete remove it. While modifying,
/// escape closes the buffer, enter writes it back, and the other keys edit
/// it.
pub open spec fn after_key(s: Session, ev: KeyEvent) -> Session {
    if ev.kind != KeyEventKind::Press {
        s
    } else if s.mode == OperaMode::Select {
        match ev.code {
            KeyCode::Esc => Session { exit: true, ..s },
            KeyCode::Down => after_down(s),
            KeyCode::Up => after_up(s),
            KeyCode::Left => after_left(s),
            KeyCode::Right => after_right(s),
            KeyCode::Enter => after_open(s),
            KeyCode::Backspace | KeyCode::Delete => after_remove(s),
            _ => s,
        }
    } else {
        match ev.code {
            KeyCode::Esc => after_discard(s),
            KeyCode::Enter => after_commit(s),
            KeyCode::Tab => after_tab(s),
            KeyCode::Char(ch) => after_insert(s, ch),
            KeyCode::Backspace => after_backspace(s),
            KeyCode::Delete => after_delete(s),
            KeyCode::Left => after_cursor_left(s),
            KeyCode::Right => after_cursor_right(s),
            _ => s,
        }
    }
}

/// What a key event asks of the caller: the letter `a`, pressed while
/// selecting, asks for the mesher to be run on the store.
pub open spec fn action_of(s: Session, ev: KeyEvent) -> Action {
    if ev.kind == KeyEventKind::Press && s.mode == OperaMode::Select && ev.code == KeyCode::Char(
        'a',
    ) {
        Action::ApplyMesh
    } else {
        Action::Proceed
    }
}

} // verus!
