//! The editing engine: a queue of input actions and the operations that turn
//! them into changes of the text, the selection and the caret's visuals.

use std::collections::VecDeque;
use vstd::prelude::*;

use crate::clipboard::Clipboard;
use crate::context::{Context, DropPolicy, Entity, HostEvent, VisualState};
use crate::geometry::{check_mouse_condition, Point};
use crate::hit_test;
use crate::input::{CommandModifier, Key, KeyEvent, Mouse};
use crate::measure::{TextMeasurer, TextMetrics};
use crate::model::{Editor, StateView};
use crate::selection::{move_selection_left, move_selection_right, TextSelection};
use crate::text_buffer::TextBuffer;
use crate::viewport::Direction;

verus! {

/// The inputs the engine accepts. The host queues them with
/// [`TextBehaviorState::action`]; each logical tick applies one.
#[derive(Clone, Debug)]
pub enum TextAction {
    KeyDown(KeyEvent),
    MouseDown(Mouse),
    MouseUp,
    MouseMove(Point),
    Drop(String, Point),
    FocusedChanged,
    SelectionChanged,
    /// Forces an update of visual state and offset after the text changed.
    ForceUpdate,
}

/// The engine's own state: the queued actions and what it remembers between ticks.
pub struct TextBehaviorState {
    action: VecDeque<TextAction>,
    cursor: Entity,
    target: Entity,
    text_block: Entity,
    direction: Direction,
    pressed: bool,
    self_update: bool,
    update_selection: bool,
}

impl View for TextBehaviorState {
    type V = StateView;

    closed spec fn view(&self) -> StateView {
        StateView {
            queue: self.action@,
            cursor: self.cursor,
            target: self.target,
            text_block: self.text_block,
            direction: self.direction,
            pressed: self.pressed,
            self_update: self.self_update,
            update_selection: self.update_selection,
        }
    }
}

/// The engine `state` and its host `ctx` as one mathematical state.
pub open spec fn editor<M>(state: TextBehaviorState, ctx: Context<M>) -> Editor<M> {
    Editor { state: state@, host: ctx@ }
}

impl Default for TextBehaviorState {
    fn default() -> (state: Self)
        ensures
            state@ == (StateView {
                queue: Seq::<TextAction>::empty(),
                cursor: Entity(0),
                target: Entity(0),
                text_block: Entity(0),
                direction: Direction::Unset,
                pressed: false,
                self_update: false,
                update_selection: false,
            }),
    {
        TextBehaviorState::new()
    }
}

impl TextBehaviorState {
    /// An engine with an empty queue that has not been bound to a widget yet.
    pub fn new() -> (state: Self)
        ensures
            state@ == (StateView {
                queue: Seq::<TextAction>::empty(),
                cursor: Entity(0),
                target: Entity(0),
                text_block: Entity(0),
                direction: Direction::Unset,
                pressed: false,
                self_update: false,
                update_selection: false,
            }),
    {
        TextBehaviorState {
            action: VecDeque::new(),
            cursor: Entity(0),
            target: Entity(0),
            text_block: Entity(0),
            direction: Direction::Unset,
            pressed: false,
            self_update: false,
            update_selection: false,
        }
    }

    /// Queues an action behind those already waiting.
    pub fn action(&mut self, action: TextAction)
        ensures
            final(self)@ == (StateView { queue: old(self)@.queue.push(action), ..old(self)@ }),
    {
        self.action.push_back(action);
    }

    /// How many actions are waiting.
    pub fn pending(&self) -> (count: usize)
        ensures
            count == self@.queue.len(),
    {
        self.action.len()
    }

    pub fn target(&self) -> (target: Entity)
        ensures
            target == self@.target,
    {
        self.target
    }

    pub fn direction(&self) -> (direction: Direction)
        ensures
            direction == self@.direction,
    {
        self.direction
    }

    pub fn is_pressed(&self) -> (pressed: bool)
        ensures
            pressed == self@.pressed,
    {
        self.pressed
    }

    /// Whether the engine wrote the buffer since the last forced update.
    pub fn is_self_update(&self) -> (self_update: bool)
        ensures
            self_update == self@.self_update,
    {
        self.self_update
    }

    /// Whether the caret's visuals await recomputation.
    pub fn needs_visual_update(&self) -> (needed: bool)
        ensures
            needed == self@.update_selection,
    {
        self.update_selection
    }

    pub fn request_focus<M: TextMeasurer>(&self, ctx: &mut Context<M>)
        ensures
            editor(*self, *final(ctx)) == editor(*self, *old(ctx)).request_focus(),
    {
        ctx.events.push(HostEvent::RequestFocus(self.target));
    }

    // -- Text operations --

    /// Copies the selection to the clipboard, then deletes it.
    pub fn cut<M: TextMeasurer>(&mut self, registry: &mut Clipboard, ctx: &mut Context<M>)
        ensures
            editor(*final(self), *final(ctx)) == editor(*old(self), *old(ctx)).cut(),
            final(registry)@ == editor(*old(self), *old(ctx)).copied(old(registry)@),
    {
        self.copy(registry, ctx);
        self.clear_selection(ctx);
    }

    /// Puts the selected text on the clipboard; an empty selection leaves
    /// the clipboard as it is.
    pub fn copy<M: TextMeasurer>(&self, registry: &mut Clipboard, ctx: &Context<M>)
        ensures
            final(registry)@ == editor(*self, *ctx).copied(old(registry)@),
    {
        let selection = self.selection(ctx);
        let (start, end) = self.selection_start_end(selection);
        if selection.is_empty() {
            return ;
        }
        if let Some(copy_text) = ctx.text.get_string(start, end) {
            registry.set(copy_text);
        }
    }

    /// Inserts the text on the clipboard, if there is any.
    pub fn paste<M: TextMeasurer>(&mut self, registry: &Clipboard, ctx: &mut Context<M>)
        ensures
            editor(*final(self), *final(ctx)) == editor(*old(self), *old(ctx)).paste(registry@),
    {
        if let Some(value) = registry.get() {
            self.insert_text(value, ctx);
        }
    }

    /// Replaces the selection by `insert_text` and puts the caret behind it.
    pub fn insert_text<M: TextMeasurer>(&mut self, insert_text: String, ctx: &mut Context<M>)
        ensures
            editor(*final(self), *final(ctx)) == editor(*old(self), *old(ctx)).insert_text(
                insert_text@,
            ),
    {
        if insert_text.as_str().is_empty() {
            return ;
        }
        self.clear_selection(ctx);
        let update_focus_state = self.len(ctx) == 0;

        let mut selection = self.selection(ctx);
        let len = self.len(ctx);
        let at = if selection.start() < len {
            selection.start()
        } else {
            len
        };

        let mut text = ctx.text.clone();
        text.insert_str(at, insert_text.as_str());

        selection.set(at + (text.len() - len));
        ctx.selection = selection;

        self.set_text(ctx, text);

        // used to trigger bounds adjustments
        self.direction = Direction::Right;

        if update_focus_state {
            self.update_focused_state(ctx);
        }
    }

    /// Deletes the selection, or else the unit in front of the caret.
    pub fn back_space<M: TextMeasurer>(&mut self, ctx: &mut Context<M>)
        ensures
            editor(*final(self), *final(ctx)) == editor(*old(self), *old(ctx)).back_space(),
            old(ctx)@.selection == TextSelection::at(0) ==> {
                &&& *final(self) == *old(self)
                &&& *final(ctx) == *old(ctx)
            },
    {
        if self.clear_selection(ctx) {
            return ;
        }
        let mut selection = self.selection(ctx);

        if selection.start() == 0 {
            return ;
        }
        selection.set(selection.start() - 1);

        let mut text = ctx.text.clone();

        let removed_width = self.measure(ctx, selection.start(), selection.start() + 1).width;
        ctx.caret.shift_after_removal(removed_width);

        text.remove(selection.start());

        self.set_text(ctx, text);
        ctx.selection = selection;

        if self.len(ctx) == 0 {
            self.update_focused_state(ctx);
        }
    }

    /// Deletes the selection, or else the unit behind the caret.
    pub fn delete<M: TextMeasurer>(&mut self, ctx: &mut Context<M>)
        ensures
            editor(*final(self), *final(ctx)) == editor(*old(self), *old(ctx)).delete(),
            old(ctx)@.selection.collapsed() && old(ctx)@.selection.start >= old(ctx)@.len() ==> {
                &&& *final(self) == *old(self)
                &&& *final(ctx) == *old(ctx)
            },
    {
        if self.clear_selection(ctx) {
            return ;
        }
        let selection = self.selection(ctx);
        let len = self.len(ctx);

        if len == 0 || selection.end() > len || selection.start() >= len {
            return ;
        }
        let mut text = ctx.text.clone();

        text.remove(selection.start());

        self.set_text(ctx, text);
    }

    /// Deletes the selected units and says whether there were any to delete.
    /// With a collapsed selection nothing changes at all.
    pub fn clear_selection<M: TextMeasurer>(&mut self, ctx: &mut Context<M>) -> (cleared: bool)
        ensures
            cleared == !old(ctx)@.selection.collapsed(),
            editor(*final(self), *final(ctx)) == editor(*old(self), *old(ctx)).clear_selection(),
            !cleared ==> {
                &&& *final(self) == *old(self)
                &&& *final(ctx) == *old(ctx)
            },
    {
        let mut selection = self.selection(ctx);

        if selection.is_empty() {
            return false;
        }
        let mut text = ctx.text.clone();

        let (start, end) = self.selection_start_end(selection);

        text.remove_range(start, end);

        let removed_width = self.measure(ctx, start, end).width;
        ctx.caret.shift_after_removal(removed_width);

        selection.set(start);

        self.set_text(ctx, text);
        ctx.selection = selection;

        if self.len(ctx) == 0 {
            self.update_focused_state(ctx);
        }
        true
    }

    // -- Text operations --

    // -- Selection --

    /// Recomputes where the caret and the selection highlight are drawn and
    /// scrolls the caret back into view in the pending direction.
    pub fn update_cursor<M: TextMeasurer>(&mut self, ctx: &mut Context<M>)
        ensures
            editor(*final(self), *final(ctx)) == editor(*old(self), *old(ctx)).update_cursor(),
            old(self)@.direction == Direction::Right ==> final(ctx)@.caret.caret_in_viewport()
                <= final(ctx)@.viewport_width,
            old(self)@.direction == Direction::Left ==> final(ctx)@.caret.caret_in_viewport() >= 0,
    {
        let selection = self.selection(ctx);
        let (start, end) = self.selection_start_end(selection);

        let cursor_start_measure = self.measure(ctx, 0, selection.start());
        ctx.caret.cursor_x = cursor_start_measure.width;

        let start_measure = self.measure(ctx, 0, start);
        ctx.caret.selection_x = start_measure.width;
        let length_measure = self.measure(ctx, start, end);
        ctx.caret.selection_width = length_measure.width;

        // adjust position
        ctx.caret.scroll_into_view(ctx.viewport_width, self.direction);

        self.direction = Direction::Unset;
    }

    /// Selects the whole text of a focused, non-empty widget.
    pub fn select_all<M: TextMeasurer>(&self, ctx: &mut Context<M>)
        ensures
            editor(*self, *final(ctx)) == editor(*self, *old(ctx)).select_all(),
            old(ctx)@.len() == 0 || !old(ctx)@.focused ==> *final(ctx) == *old(ctx),
    {
        if ctx.text.is_empty() || !ctx.focused {
            return ;
        }
        let mut selection = self.selection(ctx);
        selection.set_start(0);
        selection.set_end(self.len(ctx));

        ctx.selection = selection;
    }

    /// Moves the moving edge of the selection one unit to the left.
    pub fn expand_selection_left<M: TextMeasurer>(&mut self, ctx: &mut Context<M>)
        ensures
            editor(*final(self), *final(ctx)) == editor(
                *old(self),
                *old(ctx),
            ).expand_selection_left(),
    {
        self.direction = Direction::Left;
        let mut selection = self.selection(ctx);
        if selection.start() > 0 {
            selection.set_start(selection.start() - 1);
        }
        ctx.selection = selection;
    }

    /// Moves the moving edge of the selection one unit to the right.
    pub fn expand_selection_right<M: TextMeasurer>(&mut self, ctx: &mut Context<M>)
        ensures
            editor(*final(self), *final(ctx)) == editor(
                *old(self),
                *old(ctx),
            ).expand_selection_right(),
    {
        self.direction = Direction::Right;
        let mut selection = self.selection(ctx);
        if selection.start() < self.len(ctx) {
            selection.set_start(selection.start() + 1);
        }
        ctx.selection = selection;
    }

    pub fn move_selection_left<M: TextMeasurer>(&mut self, ctx: &mut Context<M>)
        ensures
            editor(*final(self), *final(ctx)) == editor(
                *old(self),
                *old(ctx),
            ).move_selection_left(),
    {
        self.direction = Direction::Left;
        let selection = move_selection_left(self.selection(ctx));
        ctx.selection = selection;
    }

    pub fn move_selection_right<M: TextMeasurer>(&mut self, ctx: &mut Context<M>)
        ensures
            editor(*final(self), *final(ctx)) == editor(
                *old(self),
                *old(ctx),
            ).move_selection_right(),
    {
        self.direction = Direction::Right;
        let selection = move_selection_right(self.selection(ctx), self.len(ctx));
        ctx.selection = selection;
    }

    // -- Selection --

    /// What Enter does: optionally gives up the focus, then notifies the host.
    pub fn activate<M: TextMeasurer>(&self, ctx: &mut Context<M>)
        ensures
            editor(*self, *final(ctx)) == editor(*self, *old(ctx)).activate(),
    {
        if ctx.lose_focus_on_activation {
            ctx.events.push(HostEvent::RemoveFocus(self.target));
        }
        ctx.events.push(HostEvent::Activate(self.target));
    }

    // -- Event handling --

    /// Handles a key press. While the widget is unfocused the key is dropped.
    pub fn key_down<M: TextMeasurer>(
        &mut self,
        registry: &mut Clipboard,
        ctx: &mut Context<M>,
        key_event: KeyEvent,
    )
        ensures
            editor(*final(self), *final(ctx)) == editor(*old(self), *old(ctx)).key_down(
                key_event,
                old(registry)@,
            ),
            final(registry)@ == editor(*old(self), *old(ctx)).key_down_clipboard(
                key_event,
                old(registry)@,
            ),
            !old(ctx)@.focused ==> {
                &&& *final(self) == *old(self)
                &&& *final(ctx) == *old(ctx)
            },
    {
        if !self.focused(ctx) {
            return ;
        }
        match key_event.key {
            Key::Left => {
                if self.is_shift_down(ctx) {
                    self.expand_selection_left(ctx);
                } else {
                    self.move_selection_left(ctx);
                }
            },
            Key::Right => {
                if self.is_shift_down(ctx) {
                    self.expand_selection_right(ctx);
                } else {
                    self.move_selection_right(ctx);
                }
            },
            Key::Backspace => {
                self.back_space(ctx);
            },
            Key::Delete => {
                self.delete(ctx);
            },
            Key::Enter => {
                self.activate(ctx);
            },
            Key::X(..) => {
                if self.is_ctlr_home_down(ctx) {
                    self.cut(registry, ctx);
                } else {
                    self.insert_text(key_event.text, ctx);
                }
            },
            Key::C(..) => {
                if self.is_ctlr_home_down(ctx) {
                    self.copy(registry, ctx);
                } else {
                    self.insert_text(key_event.text, ctx);
                }
            },
            Key::V(..) => {
                if self.is_ctlr_home_down(ctx) {
                    self.paste(registry, ctx);
                } else {
                    self.insert_text(key_event.text, ctx);
                }
            },
            Key::A(..) => {
                if self.is_ctlr_home_down(ctx) {
                    self.select_all(ctx);
                } else {
                    self.insert_text(key_event.text, ctx);
                }
            },
            Key::Escape => self.collapse_selection(ctx),
            Key::Other => {
                self.insert_text(key_event.text, ctx);
            },
        }
    }

    /// Handles a pointer press: an unfocused widget asks for the focus, a
    /// focused one puts the caret at the pointer.
    pub fn mouse_down<M: TextMeasurer>(&mut self, ctx: &mut Context<M>, mouse: Mouse)
        ensures
            editor(*final(self), *final(ctx)) == editor(*old(self), *old(ctx)).mouse_down(mouse),
    {
        self.pressed = true;
        if !ctx.focused {
            self.request_focus(ctx);
            return ;
        }
        let selection_start = self.get_new_selection_position(ctx, mouse.position);
        let mut selection = self.selection(ctx);
        selection.set(selection_start);

        ctx.selection = selection;
    }

    /// Handles a pointer move: while pressed and focused, the moving edge of
    /// the selection follows the pointer. The queue is left alone: a host
    /// that wants the text to keep scrolling under a resting pointer sends
    /// the position again.
    pub fn mouse_move<M: TextMeasurer>(&mut self, ctx: &mut Context<M>, position: Point)
        ensures
            editor(*final(self), *final(ctx)) == editor(*old(self), *old(ctx)).mouse_move(position),
            final(self)@.queue == old(self)@.queue,
            final(ctx)@.selection.end == old(ctx)@.selection.end,
            final(ctx)@.text == old(ctx)@.text,
    {
        if !self.pressed || !ctx.focused {
            return ;
        }
        let mut selection = self.selection(ctx);
        let new_start = self.get_new_selection_position(ctx, position);

        if selection.start() == new_start {
            return ;
        }
        if selection.start() < new_start {
            self.direction = Direction::Right;
        } else {
            self.direction = Direction::Left;
        }

        selection.set_start(new_start);

        if self.len(ctx) > 0 {
            ctx.dirty = true;
        }
        ctx.selection = selection;
    }

    /// Collapses the selection onto its caret, the `end` edge, without
    /// deleting anything.
    pub fn collapse_selection<M: TextMeasurer>(&self, ctx: &mut Context<M>)
        ensures
            editor(*self, *final(ctx)) == editor(*self, *old(ctx)).collapse_selection(),
            final(ctx)@.selection == TextSelection::at(old(ctx)@.selection.end),
            final(ctx)@.text == old(ctx)@.text,
    {
        let mut selection = self.selection(ctx);
        selection.set_start(selection.end());

        ctx.selection = selection;
    }

    pub fn mouse_up<M: TextMeasurer>(&mut self, _ctx: &mut Context<M>)
        ensures
            editor(*final(self), *final(_ctx)) == editor(*old(self), *old(_ctx)).mouse_up(),
    {
        self.pressed = false;
    }

    /// Handles a change of focus: the selection is brought into bounds, the
    /// caret is shown or hidden and the visual state follows.
    pub fn focused_changed<M: TextMeasurer>(&self, ctx: &mut Context<M>)
        ensures
            editor(*self, *final(ctx)) == editor(*self, *old(ctx)).focused_changed(),
    {
        self.adjust_selection(ctx);

        if ctx.select_all_on_focus {
            self.select_all(ctx);
        }
        if self.focused(ctx) {
            ctx.caret.visible = true;
            self.update_focused_state(ctx);
        } else {
            ctx.caret.visible = false;

            if self.len(ctx) == 0 {
                ctx.visual_state = VisualState::Empty;
            } else {
                ctx.visual_state = VisualState::Default;
            }

            // update the visual state of the target
            ctx.events.push(HostEvent::Refresh(self.target));
        }
    }

    // -- Event handling --

    // -- Helpers --

    /// Writes `text` into the buffer and remembers that the engine did so.
    pub fn set_text<M: TextMeasurer>(&mut self, ctx: &mut Context<M>, text: TextBuffer)
        ensures
            editor(*final(self), *final(ctx)) == editor(*old(self), *old(ctx)).set_text(text@),
    {
        ctx.text = text;
        self.self_update = true;
    }

    /// The length of the text in code units.
    pub fn len<M: TextMeasurer>(&self, ctx: &Context<M>) -> (len: usize)
        ensures
            len == ctx@.len(),
    {
        ctx.text.len()
    }

    pub fn focused<M: TextMeasurer>(&self, ctx: &Context<M>) -> (focused: bool)
        ensures
            focused == ctx@.focused,
    {
        ctx.focused
    }

    pub fn selection<M: TextMeasurer>(&self, ctx: &Context<M>) -> (selection: TextSelection)
        ensures
            selection == ctx@.selection,
    {
        ctx.selection
    }

    /// Whether the platform's command modifier is held down.
    pub fn is_ctlr_home_down<M: TextMeasurer>(&self, ctx: &Context<M>) -> (down: bool)
        ensures
            down == ctx@.command_down(),
    {
        match ctx.command_modifier {
            CommandModifier::Home => ctx.keyboard.is_home_down(),
            CommandModifier::Ctrl => ctx.keyboard.is_ctrl_down(),
        }
    }

    pub fn is_shift_down<M: TextMeasurer>(&self, ctx: &Context<M>) -> (down: bool)
        ensures
            down == ctx@.keyboard.shift_down,
    {
        ctx.keyboard.is_shift_down()
    }

    /// The character boundary nearest to `position`.
    pub fn get_new_selection_position<M: TextMeasurer>(
        &self,
        ctx: &Context<M>,
        position: Point,
    ) -> (index: usize)
        ensures
            index == editor(*self, *ctx).locate(position.x as int),
            hit_test::is_first_nearest(ctx@.pixel_positions(), position.x as int, index as int),
            index <= ctx@.len(),
    {
        hit_test::locate(position.x, ctx)
    }

    /// Every character boundary of the text with its pixel position.
    pub fn map_chars_index_to_position<M: TextMeasurer>(&self, ctx: &Context<M>) -> (table: Vec<
        (usize, i64),
    >)
        ensures
            table@.len() == ctx@.len() + 1,
            forall|index: int|
                0 <= index <= ctx@.len() ==> {
                    &&& (#[trigger] table@[index]).0 == index
                    &&& table@[index].1 == ctx@.pixel_of(index)
                },
    {
        hit_test::pixel_table(ctx)
    }

    /// Measures the units `start..end` of the text.
    pub fn measure<M: TextMeasurer>(&self, ctx: &Context<M>, start: usize, end: usize) -> (metrics:
        TextMetrics)
        ensures
            metrics == ctx@.measure(start as int, end as int),
    {
        ctx.measure(start, end)
    }

    /// The two edges of `selection` in ascending order.
    pub fn selection_start_end(&self, selection: TextSelection) -> (range: (usize, usize))
        ensures
            range == (selection.lo(), selection.hi()),
    {
        selection.normalized()
    }

    pub fn update_focused_state<M: TextMeasurer>(&self, ctx: &mut Context<M>)
        ensures
            editor(*self, *final(ctx)) == editor(*self, *old(ctx)).update_focused_state(),
    {
        if self.len(ctx) == 0 {
            ctx.visual_state = VisualState::EmptyFocused;
        } else {
            ctx.visual_state = VisualState::Focused;
        }
        ctx.events.push(HostEvent::Refresh(self.target));
    }

    /// Moves a selection that points beyond the text to the end of the text.
    pub fn adjust_selection<M: TextMeasurer>(&self, ctx: &mut Context<M>)
        ensures
            editor(*self, *final(ctx)) == editor(*self, *old(ctx)).adjust_selection(),
            final(ctx)@.selection_in_bounds(),
    {
        let mut selection = self.selection(ctx);
        let len = self.len(ctx);
        if selection.start() <= len && selection.end() <= len {
            return ;
        }
        selection.set(len);
        ctx.selection = selection;
        if ctx.focused {
            self.update_focused_state(ctx);
        }
    }

    /// Re-derives selection and visual state after the text changed. A change
    /// the engine made itself was accounted for already: then only the mark
    /// is cleared.
    pub fn force_update<M: TextMeasurer>(&mut self, ctx: &mut Context<M>)
        ensures
            editor(*final(self), *final(ctx)) == editor(*old(self), *old(ctx)).force_update(),
            !final(self)@.self_update,
            old(self)@.self_update ==> *final(ctx) == *old(ctx),
    {
        let self_update = self.self_update;
        self.self_update = false;

        if self_update {
            return ;
        }
        self.adjust_selection(ctx);

        if self.len(ctx) == 0 {
            ctx.caret.set_offset(0);
            ctx.visual_state = VisualState::Empty;
        } else {
            ctx.visual_state = VisualState::Default;
        }
    }

    // -- Helpers --

    /// Binds the engine to the widgets `ctx` names, hides the caret and
    /// shows an empty widget as empty.
    pub fn init<M: TextMeasurer>(&mut self, ctx: &mut Context<M>)
        ensures
            editor(*final(self), *final(ctx)) == editor(*old(self), *old(ctx)).init(),
    {
        self.cursor = ctx.cursor;
        self.target = ctx.target;
        self.text_block = ctx.text_block;

        // hide cursor
        ctx.caret.visible = false;

        // set initial empty state
        if ctx.text.is_empty() {
            ctx.visual_state = VisualState::Empty;
            ctx.events.push(HostEvent::Refresh(self.target));
        }
    }

    /// Applies one action.
    pub fn apply<M: TextMeasurer>(
        &mut self,
        registry: &mut Clipboard,
        ctx: &mut Context<M>,
        action: TextAction,
    )
        ensures
            editor(*final(self), *final(ctx)) == editor(*old(self), *old(ctx)).apply(
                action,
                old(registry)@,
            ),
            final(registry)@ == editor(*old(self), *old(ctx)).apply_clipboard(
                action,
                old(registry)@,
            ),
    {
        match action {
            TextAction::KeyDown(event) => self.key_down(registry, ctx, event),
            TextAction::MouseDown(p) => self.mouse_down(ctx, p),
            TextAction::Drop(text, position) => {
                if matches!(ctx.drop_policy, DropPolicy::Insert) && check_mouse_condition(
                    position,
                    &ctx.bounds,
                ) {
                    self.insert_text(text, ctx);
                }
            },
            TextAction::FocusedChanged => self.focused_changed(ctx),
            TextAction::SelectionChanged => self.update_selection = true,
            TextAction::MouseMove(position) => self.mouse_move(ctx, position),
            TextAction::MouseUp => self.mouse_up(ctx),
            TextAction::ForceUpdate => self.force_update(ctx),
        }
    }

    /// The logical tick: takes the oldest queued action, if there is one, and
    /// applies it. A changed selection is marked for the post-layout tick.
    pub fn update<M: TextMeasurer>(&mut self, registry: &mut Clipboard, ctx: &mut Context<M>)
        ensures
            editor(*final(self), *final(ctx)) == editor(*old(self), *old(ctx)).update(
                old(registry)@,
            ),
            final(registry)@ == editor(*old(self), *old(ctx)).update_clipboard(old(registry)@),
            old(self)@.queue.len() == 0 ==> *final(ctx) == *old(ctx),
            old(self)@.queue.len() > 0 ==> final(self)@.queue == old(self)@.queue.drop_first(),
    {
        proof {
            crate::laws::lemma_update_takes_the_oldest_action(
                editor(*old(self), *old(ctx)),
                old(registry)@,
            );
        }
        let before = self.selection(ctx);
        if let Some(action) = self.action.pop_front() {
            assert(self.action@ =~= old(self)@.queue.drop_first());
            self.apply(registry, ctx, action);
            let after = self.selection(ctx);
            if after.start() != before.start() || after.end() != before.end() {
                self.update_selection = true;
            }
        }
    }

    /// The post-layout tick: recomputes the caret's visuals if the selection
    /// was marked as changed, and clears the mark.
    pub fn update_post_layout<M: TextMeasurer>(&mut self, ctx: &mut Context<M>)
        ensures
            editor(*final(self), *final(ctx)) == editor(
                *old(self),
                *old(ctx),
            ).update_post_layout(),
            !final(self)@.update_selection,
            !old(self)@.update_selection ==> {
                &&& *final(self) == *old(self)
                &&& *final(ctx) == *old(ctx)
            },
    {
        if self.update_selection {
            self.update_cursor(ctx);

            self.update_selection = false;
        }
    }
}

} // verus!
