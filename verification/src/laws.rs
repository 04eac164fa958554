//! Laws of the editing engine, stated over its mathematical model.

use vstd::prelude::*;

use crate::hit_test;
use crate::input::KeyEvent;
use crate::measure::TextMeasurer;
use crate::model::{Editor, StateView};
use crate::selection::TextSelection;
use crate::text_behavior::TextAction;
use crate::text_buffer;
use crate::utf16;

verus! {

/// The units that the selection of `e` covers, for a selection inside the text.
pub open spec fn selected_units<M: TextMeasurer>(e: Editor<M>) -> Seq<u16> {
    e.host.text.subrange(e.host.selection.lo() as int, e.host.selection.hi() as int)
}

/// Clearing a collapsed selection changes nothing, whatever the buffer holds.
pub proof fn lemma_clear_collapsed_selection_is_noop<M: TextMeasurer>(e: Editor<M>)
    requires
        e.host.selection.collapsed(),
    ensures
        e.clear_selection() == e,
{
}

/// Backspace with the caret at the start of the text and deleting forward
/// with the caret at or behind its end change nothing.
pub proof fn lemma_delete_at_the_edges_is_noop<M: TextMeasurer>(e: Editor<M>)
    requires
        e.host.selection.collapsed(),
    ensures
        e.host.selection.start == 0 ==> e.back_space() == e,
        e.host.selection.start >= e.len() ==> e.delete() == e,
{
}

/// Selecting all in an empty buffer or in an unfocused widget changes nothing.
pub proof fn lemma_select_all_noop<M: TextMeasurer>(e: Editor<M>)
    requires
        e.len() == 0 || !e.host.focused,
    ensures
        e.select_all() == e,
{
}

/// Cut followed at once by paste restores the text and leaves the caret
/// behind the restored range.
///
/// With a collapsed selection cut does nothing, so the clipboard must hold no
/// text to paste. Otherwise the selection must lie inside the text and cover
/// no unpaired surrogate, because the clipboard holds text, not code units.
pub proof fn lemma_cut_then_paste_restores_text<M: TextMeasurer>(
    e: Editor<M>,
    clipboard: Option<Seq<char>>,
)
    requires
        e.host.selection.collapsed() ==> (clipboard matches Some(text) ==> text.len() == 0),
        !e.host.selection.collapsed() ==> e.host.selection_in_bounds() && utf16::well_formed(
            selected_units(e),
        ),
    ensures
        e.cut().paste(e.copied(clipboard)).host.text == e.host.text,
        !e.host.selection.collapsed() ==> e.cut().paste(e.copied(clipboard)).host.selection
            == TextSelection::at(e.host.selection.hi()),
{
    let selection = e.host.selection;
    if !selection.collapsed() {
        let lo = selection.lo() as int;
        let hi = selection.hi() as int;
        let text = e.host.text;
        let units = selected_units(e);
        let cut = e.cut();
        utf16::lemma_decode_len(units);
        utf16::lemma_encode_decode(units);
        assert(e.copied(clipboard) == Some(utf16::decode_utf16(units)));
        assert(cut.host.text == text_buffer::without_range(text, lo, hi));
        assert(cut.host.selection == TextSelection::at(selection.lo()));
        assert(cut.clear_selection() == cut);
        let pasted = cut.paste(e.copied(clipboard));
        assert(pasted.host.text == text_buffer::spliced(cut.host.text, lo, units));
        assert(pasted.host.text =~= text);
    }
}

/// A forced update that follows another one changes nothing unless a write
/// of the engine's own was pending before the first: then the first only
/// clears the mark and the second does the work. Either way the third of
/// three forced updates in a row changes nothing.
pub proof fn lemma_force_update_is_idempotent<M: TextMeasurer>(e: Editor<M>)
    ensures
        !e.state.self_update ==> e.force_update().force_update() == e.force_update(),
        e.state.self_update ==> e.force_update() == (Editor {
            state: StateView { self_update: false, ..e.state },
            ..e
        }),
        e.force_update().force_update().force_update() == e.force_update().force_update(),
{
    lemma_force_update_settles(e);
    lemma_force_update_settles(e.force_update());
}

/// Without a pending write of the engine's own, a second forced update
/// changes nothing.
proof fn lemma_force_update_settles<M: TextMeasurer>(e: Editor<M>)
    ensures
        !e.state.self_update ==> e.force_update().force_update() == e.force_update(),
{
    if !e.state.self_update {
        let once = e.force_update();
        assert(once.host.selection_in_bounds());
        assert(once.adjust_selection() == once);
        assert(once.force_update().host.caret == once.host.caret);
    }
}

/// No operation of the engine lets a selection that lies inside the text
/// leave it: after a logical tick both edges are again indices of the buffer.
pub proof fn lemma_update_keeps_selection_in_bounds<M: TextMeasurer>(
    e: Editor<M>,
    clipboard: Option<Seq<char>>,
)
    requires
        e.host.selection_in_bounds(),
    ensures
        e.update(clipboard).host.selection_in_bounds(),
{
    if e.state.queue.len() > 0 {
        lemma_apply_keeps_selection_in_bounds(e.dequeued(), e.state.queue[0], clipboard);
    }
}

/// Applying one action keeps a selection inside the text.
pub proof fn lemma_apply_keeps_selection_in_bounds<M: TextMeasurer>(
    e: Editor<M>,
    action: TextAction,
    clipboard: Option<Seq<char>>,
)
    requires
        e.host.selection_in_bounds(),
    ensures
        e.apply(action, clipboard).host.selection_in_bounds(),
{
    match action {
        TextAction::KeyDown(event) => {
            lemma_key_down_keeps_selection_in_bounds(e, event, clipboard);
        },
        TextAction::MouseDown(mouse) => {
            lemma_locate_in_bounds(e, mouse.position.x as int);
        },
        TextAction::MouseMove(position) => {
            lemma_locate_in_bounds(e, position.x as int);
        },
        TextAction::Drop(text, position) => {
            lemma_insert_keeps_selection_in_bounds(e, text@);
        },
        TextAction::FocusedChanged => {
            lemma_focus_change_keeps_selection_in_bounds(e);
        },
        TextAction::ForceUpdate => {
            lemma_force_update_keeps_selection_in_bounds(e);
        },
        TextAction::MouseUp => {},
        TextAction::SelectionChanged => {},
    }
}

/// Hit-testing answers with an index of the buffer.
pub proof fn lemma_locate_in_bounds<M: TextMeasurer>(e: Editor<M>, x: int)
    ensures
        0 <= e.locate(x) <= e.len(),
{
    hit_test::lemma_nearest_is_first_nearest(e.host.pixel_positions(), x);
}

/// Clearing the selection keeps it inside the text.
pub proof fn lemma_clear_keeps_selection_in_bounds<M: TextMeasurer>(e: Editor<M>)
    requires
        e.host.selection_in_bounds(),
    ensures
        e.clear_selection().host.selection_in_bounds(),
{
}

/// Inserting text keeps a selection inside the text.
pub proof fn lemma_insert_keeps_selection_in_bounds<M: TextMeasurer>(e: Editor<M>, text: Seq<char>)
    requires
        e.host.selection_in_bounds(),
    ensures
        e.insert_text(text).host.selection_in_bounds(),
{
    lemma_clear_keeps_selection_in_bounds(e);
}

/// Backspace and delete keep a selection inside the text.
pub proof fn lemma_erase_keeps_selection_in_bounds<M: TextMeasurer>(e: Editor<M>)
    requires
        e.host.selection_in_bounds(),
    ensures
        e.back_space().host.selection_in_bounds(),
        e.delete().host.selection_in_bounds(),
{
    lemma_clear_keeps_selection_in_bounds(e);
}

/// Moving, growing, collapsing and selecting all keep a selection inside the text.
pub proof fn lemma_navigation_keeps_selection_in_bounds<M: TextMeasurer>(e: Editor<M>)
    requires
        e.host.selection_in_bounds(),
    ensures
        e.move_selection_left().host.selection_in_bounds(),
        e.move_selection_right().host.selection_in_bounds(),
        e.expand_selection_left().host.selection_in_bounds(),
        e.expand_selection_right().host.selection_in_bounds(),
        e.collapse_selection().host.selection_in_bounds(),
        e.select_all().host.selection_in_bounds(),
{
}

/// A key press keeps a selection inside the text.
pub proof fn lemma_key_down_keeps_selection_in_bounds<M: TextMeasurer>(
    e: Editor<M>,
    event: KeyEvent,
    clipboard: Option<Seq<char>>,
)
    requires
        e.host.selection_in_bounds(),
    ensures
        e.key_down(event, clipboard).host.selection_in_bounds(),
{
    lemma_insert_keeps_selection_in_bounds(e, event.text@);
    if let Some(text) = clipboard {
        lemma_insert_keeps_selection_in_bounds(e, text);
    }
    lemma_clear_keeps_selection_in_bounds(e);
    lemma_erase_keeps_selection_in_bounds(e);
    lemma_navigation_keeps_selection_in_bounds(e);
}

/// A change of focus brings the selection inside the text, wherever it was.
pub proof fn lemma_focus_change_keeps_selection_in_bounds<M: TextMeasurer>(e: Editor<M>)
    ensures
        e.focused_changed().host.selection_in_bounds(),
{
    let adjusted = e.adjust_selection();
    assert(adjusted.host.selection_in_bounds());
    lemma_navigation_keeps_selection_in_bounds(adjusted);
}

/// A forced update keeps a selection inside the text, and brings it there
/// unless only the mark of a write of the engine's own was cleared.
pub proof fn lemma_force_update_keeps_selection_in_bounds<M: TextMeasurer>(e: Editor<M>)
    ensures
        e.host.selection_in_bounds() || !e.state.self_update
            ==> e.force_update().host.selection_in_bounds(),
{
}

/// A logical tick takes exactly the oldest action off the queue and leaves
/// the others in their order: the engine itself queues nothing. On an empty
/// queue the tick changes nothing.
pub proof fn lemma_update_takes_the_oldest_action<M: TextMeasurer>(
    e: Editor<M>,
    clipboard: Option<Seq<char>>,
)
    ensures
        e.state.queue.len() > 0 ==> e.update(clipboard).state.queue == e.state.queue.drop_first(),
        e.state.queue.len() == 0 ==> e.update(clipboard) == e,
{
    if e.state.queue.len() > 0 {
        let popped = e.dequeued();
        match e.state.queue[0] {
            TextAction::KeyDown(event) => {
                lemma_key_down_keeps_queue(popped, event, clipboard);
            },
            TextAction::Drop(text, position) => {
                lemma_edits_keep_queue(popped, text@);
            },
            _ => {},
        }
    }
}

/// Editing operations do not touch the queue.
proof fn lemma_edits_keep_queue<M: TextMeasurer>(e: Editor<M>, text: Seq<char>)
    ensures
        e.clear_selection().state.queue == e.state.queue,
        e.insert_text(text).state.queue == e.state.queue,
        e.back_space().state.queue == e.state.queue,
        e.delete().state.queue == e.state.queue,
{
}

/// A key press does not touch the queue.
proof fn lemma_key_down_keeps_queue<M: TextMeasurer>(
    e: Editor<M>,
    event: KeyEvent,
    clipboard: Option<Seq<char>>,
)
    ensures
        e.key_down(event, clipboard).state.queue == e.state.queue,
{
    lemma_edits_keep_queue(e, event.text@);
    if let Some(text) = clipboard {
        lemma_edits_keep_queue(e, text);
    }
}

} // verus!
