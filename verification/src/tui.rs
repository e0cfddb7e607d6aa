//! The editor's state and the moves that change it.

use vstd::prelude::*;
use vstd::string::*;
use crate::gmsh_ctl::loaded_store;
use crate::gmsh_ctl::pair_views;
use crate::gmsh_ctl::GmshPara;
use crate::gmsh_ctl::PhysPairList;
use crate::gmsh_ctl::Store;
use crate::gmsh_ctl::SurfPhys;
use crate::gmsh_ctl::VolPhys;
use crate::session::accepted;
use crate::session::action_of;
use crate::session::active_text;
use crate::session::after_backspace;
use crate::session::closed;
use crate::session::group_of;
use crate::session::put;
use crate::session::row_fields;
use crate::session::size_label;
use crate::session::after_commit;
use crate::session::after_cursor_left;
use crate::session::after_cursor_right;
use crate::session::after_delete;
use crate::session::after_discard;
use crate::session::after_down;
use crate::session::after_insert;
use crate::session::after_key;
use crate::session::after_left;
use crate::session::after_open;
use crate::session::after_remove;
use crate::session::after_right;
use crate::session::after_tab;
use crate::session::after_up;
use crate::session::focused;
use crate::session::fresh;
use crate::session::in_round;
use crate::session::is_digit;
use crate::session::last_row;
use crate::session::next_field;
use crate::session::prev_field;
use crate::session::slot;
use crate::session::texts;
use crate::session::valid;
use crate::session::Action;
use crate::session::Cursor;
use crate::session::KeyCode;
use crate::session::KeyEvent;
use crate::session::KeyEventKind;
use crate::session::ModifyType;
use crate::session::OperaMode;
use crate::session::Session;
use crate::session::TypeMode;
use crate::text::char_count;
use crate::text::insert_char;
use crate::text::remove_char;

verus! {

/// The state of the editor.
pub struct TUI {
    exit: bool,
    gmesh_para: GmshPara,
    selected: Option<usize>,
    cur_type: TypeMode,
    input_buf: Vec<String>,
    operation_mode: OperaMode,
    cursor: Cursor,
}

impl View for TUI {
    type V = Session;

    closed spec fn view(&self) -> Session {
        Session {
            exit: self.exit,
            store: self.gmesh_para@,
            group: self.cur_type,
            selected: match self.selected {
                Some(row) => Some(row as int),
                None => None,
            },
            mode: self.operation_mode,
            fields: texts(self.input_buf@),
            active: self.cursor.modify_type,
            caret: self.cursor.char_idx as int,
        }
    }
}

/// Whether `ch` is an ASCII decimal digit.
pub fn is_ascii_digit(ch: char) -> (yes: bool)
    ensures
        yes == is_digit(ch),
{
    '0' <= ch && ch <= '9'
}

/// Whether the field takes the character.
pub fn accepts(field: ModifyType, ch: char) -> (yes: bool)
    ensures
        yes == accepted(field, ch),
{
    match field {
        ModifyType::VolName | ModifyType::SurName => true,
        ModifyType::VolPID | ModifyType::SurPID => is_ascii_digit(ch),
        ModifyType::VolVID | ModifyType::SurSID => is_ascii_digit(ch) || ch == ',',
        ModifyType::MeshVal => is_ascii_digit(ch) || ch == '.',
        ModifyType::NoField => false,
    }
}

/// The place of a field in the buffer.
fn slot_of(field: ModifyType) -> (k: usize)
    ensures
        k == slot(field),
{
    match field {
        ModifyType::VolName | ModifyType::SurName => 0,
        ModifyType::VolPID | ModifyType::SurPID | ModifyType::MeshVal => 1,
        ModifyType::VolVID | ModifyType::SurSID => 2,
        ModifyType::NoField => 0,
    }
}

/// The field after a field in its round.
fn field_after(field: ModifyType) -> (next: ModifyType)
    ensures
        next == next_field(field),
{
    match field {
        ModifyType::VolName => ModifyType::VolPID,
        ModifyType::VolPID => ModifyType::VolVID,
        ModifyType::VolVID => ModifyType::VolName,
        ModifyType::SurName => ModifyType::SurPID,
        ModifyType::SurPID => ModifyType::SurSID,
        ModifyType::SurSID => ModifyType::SurName,
        ModifyType::MeshVal => ModifyType::MeshVal,
        ModifyType::NoField => ModifyType::NoField,
    }
}

/// The field before a field in its round.
fn field_before(field: ModifyType) -> (prev: ModifyType)
    ensures
        prev == prev_field(field),
{
    match field {
        ModifyType::VolName => ModifyType::VolVID,
        ModifyType::VolPID => ModifyType::VolName,
        ModifyType::VolVID => ModifyType::VolPID,
        ModifyType::SurName => ModifyType::SurSID,
        ModifyType::SurPID => ModifyType::SurName,
        ModifyType::SurSID => ModifyType::SurPID,
        ModifyType::MeshVal => ModifyType::MeshVal,
        ModifyType::NoField => ModifyType::NoField,
    }
}

/// Whether the caret can leave the field for another.
fn leaves(field: ModifyType) -> (yes: bool)
    ensures
        yes == in_round(field),
{
    match field {
        ModifyType::MeshVal | ModifyType::NoField => false,
        _ => true,
    }
}

impl TUI {
    /// Whether the state is one that a session can be in.
    pub open spec fn wf(&self) -> bool {
        valid(self@)
    }

    /// The state at the start of a session with the given store.
    pub fn new(store: GmshPara) -> (tui: TUI)
        ensures
            tui.wf(),
            tui@ == fresh(store@),
    {
        let tui = TUI {
            exit: false,
            gmesh_para: store,
            selected: None,
            cur_type: TypeMode::NoneSelected,
            input_buf: Vec::new(),
            operation_mode: OperaMode::Select,
            cursor: Cursor { char_idx: 0, modify_type: ModifyType::NoField },
        };
        assert(tui@.fields =~= Seq::empty());
        tui
    }

    /// The number of the last row of the list with the focus.
    fn last_row(&self) -> (row: usize)
        ensures
            row == last_row(self@.store, self@.group),
    {
        match self.cur_type {
            TypeMode::Volume => self.gmesh_para.vol_phy_list.len(),
            TypeMode::Surface => self.gmesh_para.surf_phy_list.len(),
            _ => 0,
        }
    }

    /// Moves the selection one row down.
    pub fn table_state_down(&mut self)
        requires
            old(self).wf(),
        ensures
            final(self).wf(),
            final(self)@ == after_down(old(self)@),
    {
        if self.operation_mode == OperaMode::Modify {
            return ;
        }
        match self.selected {
            Some(row) => {
                if row < self.last_row() {
                    self.selected = Some(row + 1);
                } else {
                    self.selected = None;
                }
            },
            None => {
                if self.cur_type == TypeMode::NoneSelected {
                    self.cur_type = TypeMode::Volume;
                }
                self.selected = Some(0);
            },
        }
    }

    /// Moves the selection one row up.
    pub fn table_state_up(&mut self)
        requires
            old(self).wf(),
        ensures
            final(self).wf(),
            final(self)@ == after_up(old(self)@),
    {
        if self.operation_mode == OperaMode::Modify {
            return ;
        }
        match self.selected {
            Some(row) => {
                if row > 0 {
                    self.selected = Some(row - 1);
                } else {
                    self.selected = None;
                }
            },
            None => {
                if self.cur_type == TypeMode::NoneSelected {
                    self.cur_type = TypeMode::Volume;
                }
                self.selected = Some(self.last_row());
            },
        }
    }

    /// Gives the focus to `group` and brings the selection into its rows.
    fn enter(&mut self, group: TypeMode)
        requires
            old(self).wf(),
            old(self)@.mode == OperaMode::Select,
        ensures
            final(self).wf(),
            final(self)@ == focused(old(self)@, group),
    {
        self.cur_type = group;
        match group {
            TypeMode::NoneSelected => {
                self.selected = None;
            },
            TypeMode::Mesh => {
                self.selected = Some(0);
            },
            _ => {
                let last: usize = self.last_row();
                match self.selected {
                    Some(row) => {
                        if row > last {
                            self.selected = Some(last);
                        }
                    },
                    None => {
                        self.selected = Some(0);
                    },
                }
            },
        }
    }

    /// Moves the focus one list to the left.
    pub fn type_mode_left(&mut self)
        requires
            old(self).wf(),
        ensures
            final(self).wf(),
            final(self)@ == after_left(old(self)@),
    {
        if self.operation_mode == OperaMode::Modify {
            return ;
        }
        let group = match self.cur_type {
            TypeMode::NoneSelected => TypeMode::Mesh,
            TypeMode::Volume => TypeMode::NoneSelected,
            TypeMode::Surface => TypeMode::Volume,
            TypeMode::Mesh => TypeMode::Surface,
        };
        self.enter(group);
    }

    /// Moves the focus one list to the right.
    pub fn type_mode_right(&mut self)
        requires
            old(self).wf(),
        ensures
            final(self).wf(),
            final(self)@ == after_right(old(self)@),
    {
        if self.operation_mode == OperaMode::Modify {
            return ;
        }
        let group = match self.cur_type {
            TypeMode::NoneSelected => TypeMode::Volume,
            TypeMode::Volume => TypeMode::Surface,
            TypeMode::Surface => TypeMode::Mesh,
            TypeMode::Mesh => TypeMode::NoneSelected,
        };
        self.enter(group);
    }

    /// Types a character into the field that the caret is in.
    pub fn char_insert(&mut self, ch: char)
        requires
            old(self).wf(),
        ensures
            final(self).wf(),
            final(self)@ == after_insert(old(self)@, ch),
    {
        let field = self.cursor.modify_type;
        if accepts(field, ch) {
            let k: usize = slot_of(field);
            let text = insert_char(&self.input_buf[k], self.cursor.char_idx, ch);
            let n: usize = char_count(&text);
            self.input_buf[k] = text;
            self.cursor.char_idx = self.cursor.char_idx + 1;
            assert(self@.fields =~= old(self)@.fields.update(
                k as int,
                active_text(old(self)@).insert(old(self)@.caret, ch),
            ));
        }
    }

    /// Removes the character before the caret.
    pub fn char_backspace(&mut self)
        requires
            old(self).wf(),
        ensures
            final(self).wf(),
            final(self)@ == after_backspace(old(self)@),
    {
        let field = self.cursor.modify_type;
        if field != ModifyType::NoField && self.cursor.char_idx > 0 {
            let k: usize = slot_of(field);
            let text = remove_char(&self.input_buf[k], self.cursor.char_idx - 1);
            self.input_buf[k] = text;
            self.cursor.char_idx = self.cursor.char_idx - 1;
            assert(self@.fields =~= old(self)@.fields.update(
                k as int,
                active_text(old(self)@).remove(old(self)@.caret - 1),
            ));
        }
    }

    /// Removes the character at the caret.
    pub fn char_delete(&mut self)
        requires
            old(self).wf(),
        ensures
            final(self).wf(),
            final(self)@ == after_delete(old(self)@),
    {
        let field = self.cursor.modify_type;
        if field != ModifyType::NoField {
            let k: usize = slot_of(field);
            if self.cursor.char_idx < char_count(&self.input_buf[k]) {
                let text = remove_char(&self.input_buf[k], self.cursor.char_idx);
                self.input_buf[k] = text;
                assert(self@.fields =~= old(self)@.fields.update(
                    k as int,
                    active_text(old(self)@).remove(old(self)@.caret),
                ));
            }
        }
    }

    /// Moves the caret one character back.
    pub fn cursor_left(&mut self)
        requires
            old(self).wf(),
        ensures
            final(self).wf(),
            final(self)@ == after_cursor_left(old(self)@),
    {
        let field = self.cursor.modify_type;
        if field == ModifyType::NoField {
            return ;
        }
        if self.cursor.char_idx > 0 {
            self.cursor.char_idx = self.cursor.char_idx - 1;
        } else if leaves(field) {
            let prev = field_before(field);
            self.cursor.modify_type = prev;
            self.cursor.char_idx = char_count(&self.input_buf[slot_of(prev)]);
        }
    }

    /// Moves the caret one character on.
    pub fn cursor_right(&mut self)
        requires
            old(self).wf(),
        ensures
            final(self).wf(),
            final(self)@ == after_cursor_right(old(self)@),
    {
        let field = self.cursor.modify_type;
        if field == ModifyType::NoField {
            return ;
        }
        if self.cursor.char_idx < char_count(&self.input_buf[slot_of(field)]) {
            self.cursor.char_idx = self.cursor.char_idx + 1;
        } else if leaves(field) {
            self.cursor.modify_type = field_after(field);
            self.cursor.char_idx = 0;
        }
    }

    /// Moves the caret to the end of the next field.
    pub fn modify_tab(&mut self)
        requires
            old(self).wf(),
        ensures
            final(self).wf(),
            final(self)@ == after_tab(old(self)@),
    {
        let field = self.cursor.modify_type;
        if leaves(field) {
            let next = field_after(field);
            self.cursor.modify_type = next;
            self.cursor.char_idx = char_count(&self.input_buf[slot_of(next)]);
        }
    }

    /// Opens the selected row for modifying.
    pub fn select_to_modify(&mut self)
        requires
            old(self).wf(),
        ensures
            final(self).wf(),
            final(self)@ == after_open(old(self)@),
    {
        if self.operation_mode == OperaMode::Modify {
            return ;
        }
        let row: usize = match self.selected {
            Some(row) => row,
            None => {
                return ;
            },
        };
        let mut buf: Vec<String> = Vec::new();
        match self.cur_type {
            TypeMode::Volume => {
                if row < self.gmesh_para.vol_phy_list.len() {
                    let group = &self.gmesh_para.vol_phy_list[row];
                    buf.push(group.name.clone());
                    buf.push(group.phys_id.clone());
                    buf.push(group.vol_ids.clone());
                } else {
                    buf.push(String::new());
                    buf.push(String::new());
                    buf.push(String::new());
                }
                self.cursor.modify_type = ModifyType::VolName;
                self.cursor.char_idx = char_count(&buf[0]);
                assert(texts(buf@) =~= row_fields(old(self)@.store.volumes, row as int));
            },
            TypeMode::Surface => {
                if row < self.gmesh_para.surf_phy_list.len() {
                    let group = &self.gmesh_para.surf_phy_list[row];
                    buf.push(group.name.clone());
                    buf.push(group.phys_id.clone());
                    buf.push(group.surf_ids.clone());
                } else {
                    buf.push(String::new());
                    buf.push(String::new());
                    buf.push(String::new());
                }
                self.cursor.modify_type = ModifyType::SurName;
                self.cursor.char_idx = char_count(&buf[0]);
                assert(texts(buf@) =~= row_fields(old(self)@.store.surfaces, row as int));
            },
            TypeMode::Mesh => {
                buf.push(String::from_str("MaxSize"));
                buf.push(self.gmesh_para.mesh_paras.max_size.clone());
                self.cursor.modify_type = ModifyType::MeshVal;
                self.cursor.char_idx = char_count(&buf[1]);
                assert(texts(buf@) =~= seq![size_label(), old(self)@.store.max_size]);
            },
            TypeMode::NoneSelected => {
                return ;
            },
        }
        self.input_buf = buf;
        self.operation_mode = OperaMode::Modify;
    }

    /// Removes the group in the selected row.
    pub fn delete_selected(&mut self)
        requires
            old(self).wf(),
        ensures
            final(self).wf(),
            final(self)@ == after_remove(old(self)@),
    {
        if self.operation_mode == OperaMode::Modify {
            return ;
        }
        if let Some(row) = self.selected {
            match self.cur_type {
                TypeMode::Volume => {
                    if row < self.gmesh_para.vol_phy_list.len() {
                        self.gmesh_para.vol_phy_list.remove(row);
                        assert(self@.store.volumes =~= old(self)@.store.volumes.remove(row as int));
                    }
                },
                TypeMode::Surface => {
                    if row < self.gmesh_para.surf_phy_list.len() {
                        self.gmesh_para.surf_phy_list.remove(row);
                        assert(self@.store.surfaces =~= old(self)@.store.surfaces.remove(
                            row as int,
                        ));
                    }
                },
                _ => {},
            }
        }
    }

    /// Closes the buffer.
    fn close(&mut self)
        ensures
            final(self)@ == closed(old(self)@),
    {
        self.operation_mode = OperaMode::Select;
        self.cursor.modify_type = ModifyType::NoField;
        self.cursor.char_idx = 0;
        self.input_buf.clear();
        assert(self@.fields =~= Seq::empty());
    }

    /// Writes the buffer to the selected row and closes it.
    pub fn confirm_modification(&mut self)
        requires
            old(self).wf(),
        ensures
            final(self).wf(),
            final(self)@ == after_commit(old(self)@),
    {
        if self.operation_mode == OperaMode::Select {
            return ;
        }
        if let Some(row) = self.selected {
            match self.cur_type {
                TypeMode::Volume => {
                    let group = VolPhys {
                        name: self.input_buf[0].clone(),
                        phys_id: self.input_buf[1].clone(),
                        vol_ids: self.input_buf[2].clone(),
                    };
                    if row < self.gmesh_para.vol_phy_list.len() {
                        self.gmesh_para.vol_phy_list[row] = group;
                    } else {
                        self.gmesh_para.vol_phy_list.push(group);
                    }
                    assert(self@.store.volumes =~= put(
                        old(self)@.store.volumes,
                        row as int,
                        group_of(old(self)@.fields),
                    ));
                },
                TypeMode::Surface => {
                    let group = SurfPhys {
                        name: self.input_buf[0].clone(),
                        phys_id: self.input_buf[1].clone(),
                        surf_ids: self.input_buf[2].clone(),
                    };
                    if row < self.gmesh_para.surf_phy_list.len() {
                        self.gmesh_para.surf_phy_list[row] = group;
                    } else {
                        self.gmesh_para.surf_phy_list.push(group);
                    }
                    assert(self@.store.surfaces =~= put(
                        old(self)@.store.surfaces,
                        row as int,
                        group_of(old(self)@.fields),
                    ));
                },
                TypeMode::Mesh => {
                    self.gmesh_para.mesh_paras.max_size = self.input_buf[1].clone();
                },
                TypeMode::NoneSelected => {},
            }
        }
        self.close();
    }

    /// Closes the buffer and leaves the store as it was.
    pub fn discard_modification(&mut self)
        requires
            old(self).wf(),
        ensures
            final(self).wf(),
            final(self)@ == after_discard(old(self)@),
    {
        self.close();
    }

    /// Handles one event of the keyboard, and says what the caller is to do
    /// next.
    pub fn handle_key_event(&mut self, key_evt: KeyEvent) -> (action: Action)
        requires
            old(self).wf(),
        ensures
            final(self).wf(),
            final(self)@ == after_key(old(self)@, key_evt),
            action == action_of(old(self)@, key_evt),
    {
        if key_evt.kind != KeyEventKind::Press {
            return Action::Proceed;
        }
        match self.operation_mode {
            OperaMode::Select => match key_evt.code {
                KeyCode::Esc => {
                    self.exit = true;
                },
                KeyCode::Down => self.table_state_down(),
                KeyCode::Up => self.table_state_up(),
                KeyCode::Left => self.type_mode_left(),
                KeyCode::Right => self.type_mode_right(),
                KeyCode::Enter => self.select_to_modify(),
                KeyCode::Char(ch) => {
                    if ch == 'a' {
                        return Action::ApplyMesh;
                    }
                },
                KeyCode::Backspace | KeyCode::Delete => self.delete_selected(),
                _ => {},
            },
            OperaMode::Modify => match key_evt.code {
                KeyCode::Esc => self.discard_modification(),
                KeyCode::Enter => self.confirm_modification(),
                KeyCode::Tab => self.modify_tab(),
                KeyCode::Char(ch) => self.char_insert(ch),
                KeyCode::Backspace => self.char_backspace(),
                KeyCode::Delete => self.char_delete(),
                KeyCode::Left => self.cursor_left(),
                KeyCode::Right => self.cursor_right(),
                _ => {},
            },
        }
        Action::Proceed
    }

    /// Whether the session is to end.
    pub fn should_exit(&self) -> (exit: bool)
        ensures
            exit == self@.exit,
    {
        self.exit
    }

    /// The store.
    pub fn gmesh_para(&self) -> (store: &GmshPara)
        ensures
            store@ == self@.store,
    {
        &self.gmesh_para
    }

    /// The list that has the focus.
    pub fn cur_type(&self) -> (group: TypeMode)
        ensures
            group == self@.group,
    {
        self.cur_type
    }

    /// The selected row, if there is one.
    pub fn selected(&self) -> (row: Option<usize>)
        ensures
            match row {
                Some(r) => self@.selected == Some(r as int),
                None => self@.selected is None,
            },
    {
        self.selected
    }

    /// Whether the keys move the focus or edit a row.
    pub fn operation_mode(&self) -> (mode: OperaMode)
        ensures
            mode == self@.mode,
    {
        self.operation_mode
    }

    /// The fields of the row that is edited; none while selecting.
    pub fn input_buf(&self) -> (buf: &Vec<String>)
        ensures
            texts(buf@) == self@.fields,
    {
        &self.input_buf
    }

    /// The caret.
    pub fn cursor(&self) -> (cursor: Cursor)
        ensures
            cursor.modify_type == self@.active,
            cursor.char_idx == self@.caret,
    {
        self.cursor
    }
}

/// The state at the start of a session on the given geometry file, with
/// the groups that the kept pairs give rise to.
pub fn tui_start(geometry_filename: String, cache: &PhysPairList) -> (tui: TUI)
    ensures
        tui.wf(),
        tui@ == fresh(
            Store {
                geometry_file: geometry_filename@,
                ..loaded_store(pair_views(cache.vol_pairs@), pair_views(cache.sur_pairs@))
            },
        ),
{
    let mut store = GmshPara::new(cache);
    store.geometry_file = geometry_filename;
    TUI::new(store)
}

} // verus!
