//! What holds of every session, whatever keys are pressed.

use vstd::prelude::*;
use crate::gmsh_ctl::Store;
use crate::session::accepted;
use crate::session::active_text;
use crate::session::after_cursor_left;
use crate::session::after_cursor_right;
use crate::session::after_down;
use crate::session::after_insert;
use crate::session::after_key;
use crate::session::after_left;
use crate::session::after_right;
use crate::session::after_tab;
use crate::session::after_up;
use crate::session::entering;
use crate::session::in_round;
use crate::session::last_row;
use crate::session::next_field;
use crate::session::prev_field;
use crate::session::selection_in_range;
use crate::session::slot;
use crate::session::valid;
use crate::session::KeyEvent;
use crate::session::ModifyType;
use crate::session::OperaMode;
use crate::session::Session;
use crate::session::TypeMode;

verus! {

/// The session after a run of key events, handled in order.
pub open spec fn after_keys(s: Session, events: Seq<KeyEvent>) -> Session
    decreases events.len(),
{
    if events.len() == 0 {
        s
    } else {
        after_key(after_keys(s, events.drop_last()), events.last())
    }
}

/// The session after a run of presses of the down key, where `true`
/// stands, and of the up key, where `false` stands.
pub open spec fn after_rows(s: Session, downs: Seq<bool>) -> Session
    decreases downs.len(),
{
    if downs.len() == 0 {
        s
    } else if downs.last() {
        after_down(after_rows(s, downs.drop_last()))
    } else {
        after_up(after_rows(s, downs.drop_last()))
    }
}

/// The session after the characters are typed, in order.
pub open spec fn after_typing(s: Session, chars: Seq<char>) -> Session
    decreases chars.len(),
{
    if chars.len() == 0 {
        s
    } else {
        after_insert(after_typing(s, chars.drop_last()), chars.last())
    }
}

/// Whether a field takes every character of a text.
pub open spec fn all_accepted(field: ModifyType, text: Seq<char>) -> bool {
    forall|i: int| 0 <= i < text.len() ==> accepted(field, #[trigger] text[i])
}

/// No key leads out of the sessions that can be: the selection stays among
/// the rows of the list with the focus, and the caret stays in a field of
/// the row that is edited.
pub proof fn key_keeps_valid(s: Session, ev: KeyEvent)
    requires
        valid(s),
    ensures
        valid(after_key(s, ev)),
{
}

/// No run of keys leads out of the sessions that can be.
pub proof fn keys_keep_valid(s: Session, events: Seq<KeyEvent>)
    requires
        valid(s),
    ensures
        valid(after_keys(s, events)),
    decreases events.len(),
{
    if events.len() > 0 {
        keys_keep_valid(s, events.drop_last());
        key_keeps_valid(after_keys(s, events.drop_last()), events.last());
    }
}

/// However often the up and down keys are pressed, the selection stays
/// between the first row and the row after the last group of the list, the
/// store is untouched, and the focus stays on the list it was on.
pub proof fn rows_stay_in_range(s: Session, downs: Seq<bool>)
    requires
        valid(s),
    ensures
        valid(after_rows(s, downs)),
        selection_in_range(
            after_rows(s, downs).store,
            after_rows(s, downs).group,
            after_rows(s, downs).selected,
        ),
        after_rows(s, downs).selected matches Some(row) ==> 0 <= row <= last_row(
            s.store,
            after_rows(s, downs).group,
        ),
        after_rows(s, downs).store == s.store,
        s.group != TypeMode::NoneSelected ==> after_rows(s, downs).group == s.group,
    decreases downs.len(),
{
    if downs.len() > 0 {
        rows_stay_in_range(s, downs.drop_last());
    }
}

/// Four presses of the right key bring the focus back to the list it was
/// on.
pub proof fn four_rights_return(s: Session)
    ensures
        after_right(after_right(after_right(after_right(s)))).group == s.group,
{
}

/// Four presses of the left key bring the focus back to the list it was
/// on.
pub proof fn four_lefts_return(s: Session)
    ensures
        after_left(after_left(after_left(after_left(s)))).group == s.group,
{
}

/// The left key takes the focus back where the right key took it from, and
/// the right key where the left key took it from.
pub proof fn left_and_right_undo_each_other(s: Session)
    ensures
        after_left(after_right(s)).group == s.group,
        after_right(after_left(s)).group == s.group,
{
}

/// The selection that the focus arrives with lies among the rows of the
/// list it arrives in, however long the list it came from was.
pub proof fn entering_stays_in_range(store: Store, group: TypeMode, carried: Option<int>)
    requires
        carried matches Some(row) ==> 0 <= row,
    ensures
        selection_in_range(store, group, entering(store, group, carried)),
        entering(store, group, carried) matches Some(row) ==> 0 <= row <= last_row(store, group),
{
}

/// After the left or the right key the selection does not lie beyond the
/// last row of the list that has the focus.
pub proof fn focus_move_stays_in_range(s: Session)
    requires
        valid(s),
    ensures
        selection_in_range(s.store, after_left(s).group, after_left(s).selected),
        selection_in_range(s.store, after_right(s).group, after_right(s).selected),
{
}

/// Typing puts into the field exactly the characters that it takes, in the
/// order in which they were typed, at the place where the caret stood; the
/// caret ends behind them and every other field is as it was.
pub proof fn typing_inserts_what_is_accepted(s: Session, chars: Seq<char>)
    requires
        valid(s),
        s.mode == OperaMode::Modify,
    ensures
        valid(after_typing(s, chars)),
        after_typing(s, chars).active == s.active,
        after_typing(s, chars).mode == s.mode,
        after_typing(s, chars).fields.len() == s.fields.len(),
        active_text(after_typing(s, chars)) == active_text(s).take(s.caret) + chars.filter(
            |ch: char| accepted(s.active, ch),
        ) + active_text(s).skip(s.caret),
        after_typing(s, chars).caret == s.caret + chars.filter(
            |ch: char| accepted(s.active, ch),
        ).len(),
        forall|k: int|
            0 <= k < s.fields.len() && k != slot(s.active) ==> #[trigger] after_typing(
                s,
                chars,
            ).fields[k] == s.fields[k],
    decreases chars.len(),
{
    reveal(Seq::filter);
    let takes = |ch: char| accepted(s.active, ch);
    let before = active_text(s).take(s.caret);
    let behind = active_text(s).skip(s.caret);
    if chars.len() == 0 {
        assert(chars.filter(takes) =~= Seq::<char>::empty());
        assert(active_text(s) =~= before + chars.filter(takes) + behind);
    } else {
        let rest = chars.drop_last();
        let mid = after_typing(s, rest);
        typing_inserts_what_is_accepted(s, rest);
        if accepted(s.active, chars.last()) {
            assert(chars.filter(takes) == rest.filter(takes).push(chars.last()));
            assert(active_text(mid).insert(mid.caret, chars.last()) =~= before + chars.filter(takes)
                + behind);
        }
    }
}

/// Where the field takes every character that is typed, the field holds
/// them all afterwards, in the order in which they were typed; and a field
/// that held only characters it takes still holds only such.
pub proof fn typing_accepted_chars(s: Session, chars: Seq<char>)
    requires
        valid(s),
        s.mode == OperaMode::Modify,
        all_accepted(s.active, chars),
    ensures
        active_text(after_typing(s, chars)) == active_text(s).take(s.caret) + chars + active_text(
            s,
        ).skip(s.caret),
        after_typing(s, chars).caret == s.caret + chars.len(),
        all_accepted(s.active, active_text(s)) ==> all_accepted(
            s.active,
            active_text(after_typing(s, chars)),
        ),
{
    let takes = |ch: char| accepted(s.active, ch);
    typing_inserts_what_is_accepted(s, chars);
    all_pass_filter(chars, takes);
}

/// A filter that every element passes leaves the sequence as it is.
proof fn all_pass_filter(chars: Seq<char>, takes: spec_fn(char) -> bool)
    requires
        forall|i: int| 0 <= i < chars.len() ==> takes(#[trigger] chars[i]),
    ensures
        chars.filter(takes) == chars,
    decreases chars.len(),
{
    reveal(Seq::filter);
    if chars.len() > 0 {
        all_pass_filter(chars.drop_last(), takes);
        assert(chars.drop_last().push(chars.last()) =~= chars);
    }
}

/// Three presses of the tab key, in a row of volumes or surfaces, bring the
/// caret back to the field it was in, at the end of it, and change no
/// field.
pub proof fn three_tabs_return(s: Session)
    ensures
        after_tab(after_tab(after_tab(s))).active == s.active,
        after_tab(after_tab(after_tab(s))).fields == s.fields,
        in_round(s.active) ==> after_tab(after_tab(after_tab(s))).caret == active_text(s).len(),
{
}

/// At the start of a field of a volume or surface group, the left key
/// takes the caret to the end of the field before it.
pub proof fn left_wraps_to_previous_end(s: Session)
    requires
        in_round(s.active),
        s.caret == 0,
    ensures
        after_cursor_left(s).active == prev_field(s.active),
        after_cursor_left(s).caret == s.fields[slot(prev_field(s.active))].len(),
        after_cursor_left(s).fields == s.fields,
{
}

/// At the end of a field of a volume or surface group, the right key takes
/// the caret to the start of the field after it.
pub proof fn right_wraps_to_next_start(s: Session)
    requires
        in_round(s.active),
        s.caret == active_text(s).len(),
    ensures
        after_cursor_right(s).active == next_field(s.active),
        after_cursor_right(s).caret == 0,
        after_cursor_right(s).fields == s.fields,
{
}

/// The right key undoes the left key: from inside any field, and among the
/// fields of a volume or surface group from every place, the two in
/// sequence leave the caret where it was.
pub proof fn left_then_right_returns(s: Session)
    requires
        valid(s),
        s.mode == OperaMode::Modify,
        in_round(s.active) || s.caret > 0,
    ensures
        after_cursor_right(after_cursor_left(s)) == s,
{
}

/// The left key undoes the right key, in the same way.
pub proof fn right_then_left_returns(s: Session)
    requires
        valid(s),
        s.mode == OperaMode::Modify,
        in_round(s.active) || s.caret < active_text(s).len(),
    ensures
        after_cursor_left(after_cursor_right(s)) == s,
{
}

} // verus!
