//! The mathematical model of the editing engine: the engine's own state
//! together with the host widget, and every operation as a function from one
//! such state to the next.

use vstd::prelude::*;

use crate::context::{ContextView, DropPolicy, Entity, HostEvent, VisualState};
use crate::geometry::Point;
use crate::hit_test;
use crate::input::{Key, KeyEvent, Mouse};
use crate::measure::{TextMeasurer, TextMetrics};
use crate::selection;
use crate::selection::TextSelection;
use crate::text_behavior::TextAction;
use crate::text_buffer;
use crate::utf16;
use crate::viewport::{CaretVisual, Direction};

verus! {

/// The mathematical content of the engine's own state.
pub struct StateView {
    /// The queued actions, oldest first.
    pub queue: Seq<TextAction>,
    pub cursor: Entity,
    pub target: Entity,
    pub text_block: Entity,
    pub direction: Direction,
    pub pressed: bool,
    /// Whether the engine itself wrote the buffer since the last forced update.
    pub self_update: bool,
    /// Whether the caret's visuals must be recomputed after layout.
    pub update_selection: bool,
}

/// The engine and its host at one moment.
pub struct Editor<M> {
    pub state: StateView,
    pub host: ContextView<M>,
}

impl<M: TextMeasurer> Editor<M> {
    pub open spec fn len(self) -> int {
        self.host.len()
    }

    pub open spec fn measure(self, start: int, end: int) -> TextMetrics {
        self.host.measure(start, end)
    }

    /// Leaves `event` for the host.
    pub open spec fn emit(self, event: HostEvent) -> Self {
        Editor { host: ContextView { events: self.host.events.push(event), ..self.host }, ..self }
    }

    pub open spec fn with_selection(self, selection: TextSelection) -> Self {
        Editor { host: ContextView { selection, ..self.host }, ..self }
    }

    pub open spec fn with_direction(self, direction: Direction) -> Self {
        Editor { state: StateView { direction, ..self.state }, ..self }
    }

    pub open spec fn with_caret(self, caret: CaretVisual) -> Self {
        Editor { host: ContextView { caret, ..self.host }, ..self }
    }

    pub open spec fn with_visual_state(self, visual_state: VisualState) -> Self {
        Editor { host: ContextView { visual_state, ..self.host }, ..self }
    }

    /// The engine writes `text` into the buffer and remembers that it did.
    pub open spec fn set_text(self, text: Seq<u16>) -> Self {
        Editor {
            state: StateView { self_update: true, ..self.state },
            host: ContextView { text, ..self.host },
        }
    }

    pub open spec fn request_focus(self) -> Self {
        self.emit(HostEvent::RequestFocus(self.state.target))
    }

    /// Shows the focused widget as empty or as holding text, and tells the host.
    pub open spec fn update_focused_state(self) -> Self {
        self.with_visual_state(VisualState::focused_for(self.len())).emit(
            HostEvent::Refresh(self.state.target),
        )
    }

    /// Deletes the selected units, if any: the text scrolls back by their
    /// measured width and the selection collapses onto its smaller edge.
    pub open spec fn clear_selection(self) -> Self {
        let selection = self.host.selection;
        if selection.collapsed() {
            self
        } else {
            let lo = selection.lo();
            let hi = selection.hi();
            let removed = self.measure(lo as int, hi as int).width;
            let cleared = self.with_caret(self.host.caret.after_removal(removed)).with_selection(
                TextSelection::at(lo),
            ).set_text(text_buffer::without_range(self.host.text, lo as int, hi as int));
            if cleared.len() == 0 {
                cleared.update_focused_state()
            } else {
                cleared
            }
        }
    }

    /// Replaces the selection by `text` and puts the caret behind it. An
    /// empty `text` changes nothing.
    pub open spec fn insert_text(self, text: Seq<char>) -> Self {
        if text.len() == 0 {
            self
        } else {
            let cleared = self.clear_selection();
            let units = utf16::encode_utf16(text);
            let at = text_buffer::clamped(cleared.host.selection.start as int, cleared.len());
            let inserted = cleared.with_selection(
                TextSelection::at((at + units.len()) as usize),
            ).set_text(
                text_buffer::spliced(cleared.host.text, at, units),
            ).with_direction(Direction::Right);
            if cleared.len() == 0 {
                inserted.update_focused_state()
            } else {
                inserted
            }
        }
    }

    /// Deletes the selection, or else the unit in front of the caret.
    pub open spec fn back_space(self) -> Self {
        let selection = self.host.selection;
        if !selection.collapsed() {
            self.clear_selection()
        } else if selection.start == 0 {
            self
        } else {
            let at = (selection.start - 1) as usize;
            let removed = self.measure(at as int, at + 1).width;
            let erased = self.with_caret(self.host.caret.after_removal(removed)).set_text(
                text_buffer::without_unit(self.host.text, at as int),
            ).with_selection(TextSelection::at(at));
            if erased.len() == 0 {
                erased.update_focused_state()
            } else {
                erased
            }
        }
    }

    /// Deletes the selection, or else the unit behind the caret.
    pub open spec fn delete(self) -> Self {
        let selection = self.host.selection;
        if !selection.collapsed() {
            self.clear_selection()
        } else if selection.start >= self.len() {
            self
        } else {
            self.set_text(text_buffer::without_unit(self.host.text, selection.start as int))
        }
    }

    /// The text that copying puts on the clipboard, if it puts any there.
    pub open spec fn copied_text(self) -> Option<Seq<char>> {
        let selection = self.host.selection;
        if selection.collapsed() {
            None
        } else {
            text_buffer::substring(self.host.text, selection.lo() as int, selection.hi() as int)
        }
    }

    /// The clipboard after copying, when it held `clipboard` before.
    pub open spec fn copied(self, clipboard: Option<Seq<char>>) -> Option<Seq<char>> {
        match self.copied_text() {
            Some(text) => Some(text),
            None => clipboard,
        }
    }

    pub open spec fn cut(self) -> Self {
        self.clear_selection()
    }

    pub open spec fn paste(self, clipboard: Option<Seq<char>>) -> Self {
        match clipboard {
            Some(text) => self.insert_text(text),
            None => self,
        }
    }

    pub open spec fn select_all(self) -> Self {
        if self.len() == 0 || !self.host.focused {
            self
        } else {
            self.with_selection(TextSelection { start: 0, end: self.len() as usize })
        }
    }

    pub open spec fn expand_selection_left(self) -> Self {
        let selection = self.host.selection;
        let start = if selection.start > 0 {
            (selection.start - 1) as usize
        } else {
            selection.start
        };
        self.with_direction(Direction::Left).with_selection(
            TextSelection { start, end: selection.end },
        )
    }

    pub open spec fn expand_selection_right(self) -> Self {
        let selection = self.host.selection;
        let start = if selection.start < self.len() {
            (selection.start + 1) as usize
        } else {
            selection.start
        };
        self.with_direction(Direction::Right).with_selection(
            TextSelection { start, end: selection.end },
        )
    }

    pub open spec fn move_selection_left(self) -> Self {
        self.with_direction(Direction::Left).with_selection(
            selection::moved_left(self.host.selection),
        )
    }

    pub open spec fn move_selection_right(self) -> Self {
        self.with_direction(Direction::Right).with_selection(
            selection::moved_right(self.host.selection, self.len() as usize),
        )
    }

    /// Collapses the selection onto its caret, the `end` edge, without
    /// deleting anything.
    pub open spec fn collapse_selection(self) -> Self {
        self.with_selection(TextSelection::at(self.host.selection.end))
    }

    /// What Enter does: optionally gives up the focus, then notifies the host.
    pub open spec fn activate(self) -> Self {
        let target = self.state.target;
        if self.host.lose_focus_on_activation {
            self.emit(HostEvent::RemoveFocus(target)).emit(HostEvent::Activate(target))
        } else {
            self.emit(HostEvent::Activate(target))
        }
    }

    /// The effect of a key press on the engine and the widget, with
    /// `clipboard` on the clipboard. Keys are dropped while the widget is
    /// unfocused.
    pub open spec fn key_down(self, event: KeyEvent, clipboard: Option<Seq<char>>) -> Self {
        if !self.host.focused {
            self
        } else {
            match event.key {
                Key::Left => if self.host.keyboard.shift_down {
                    self.expand_selection_left()
                } else {
                    self.move_selection_left()
                },
                Key::Right => if self.host.keyboard.shift_down {
                    self.expand_selection_right()
                } else {
                    self.move_selection_right()
                },
                Key::Backspace => self.back_space(),
                Key::Delete => self.delete(),
                Key::Enter => self.activate(),
                Key::Escape => self.collapse_selection(),
                Key::X(_) => if self.host.command_down() {
                    self.cut()
                } else {
                    self.insert_text(event.text@)
                },
                Key::C(_) => if self.host.command_down() {
                    self
                } else {
                    self.insert_text(event.text@)
                },
                Key::V(_) => if self.host.command_down() {
                    self.paste(clipboard)
                } else {
                    self.insert_text(event.text@)
                },
                Key::A(_) => if self.host.command_down() {
                    self.select_all()
                } else {
                    self.insert_text(event.text@)
                },
                Key::Other => self.insert_text(event.text@),
            }
        }
    }

    /// The clipboard after a key press, when it held `clipboard` before: only
    /// cut and copy write to it.
    pub open spec fn key_down_clipboard(
        self,
        event: KeyEvent,
        clipboard: Option<Seq<char>>,
    ) -> Option<Seq<char>> {
        if self.host.focused && self.host.command_down() && (event.key is X || event.key is C) {
            self.copied(clipboard)
        } else {
            clipboard
        }
    }

    /// The character boundary nearest to the pixel position `x`.
    pub open spec fn locate(self, x: int) -> int {
        hit_test::nearest(self.host.pixel_positions(), x)
    }

    pub open spec fn mouse_down(self, mouse: Mouse) -> Self {
        let pressed = Editor { state: StateView { pressed: true, ..self.state }, ..self };
        if !self.host.focused {
            pressed.request_focus()
        } else {
            pressed.with_selection(TextSelection::at(self.locate(mouse.position.x as int) as usize))
        }
    }

    /// Dragging: the moving edge follows the pointer while the other edge
    /// stays, and a widget that holds text is marked for redrawing. Nothing
    /// happens unless the widget is pressed and focused and the pointer is
    /// nearest to another boundary than the moving edge is at.
    pub open spec fn mouse_move(self, position: Point) -> Self {
        let selection = self.host.selection;
        let start = self.locate(position.x as int) as usize;
        if !self.state.pressed || !self.host.focused || selection.start == start {
            self
        } else {
            let direction = if selection.start < start {
                Direction::Right
            } else {
                Direction::Left
            };
            let turned = self.with_direction(direction);
            Editor {
                host: ContextView {
                    dirty: self.host.dirty || self.len() > 0,
                    selection: TextSelection { start, end: selection.end },
                    ..turned.host
                },
                ..turned
            }
        }
    }

    pub open spec fn mouse_up(self) -> Self {
        Editor { state: StateView { pressed: false, ..self.state }, ..self }
    }

    /// Moves a selection that points beyond the text to the end of the text.
    pub open spec fn adjust_selection(self) -> Self {
        if self.host.selection_in_bounds() {
            self
        } else {
            let clamped = self.with_selection(TextSelection::at(self.len() as usize));
            if self.host.focused {
                clamped.update_focused_state()
            } else {
                clamped
            }
        }
    }

    pub open spec fn focused_changed(self) -> Self {
        let adjusted = self.adjust_selection();
        let selected = if self.host.select_all_on_focus {
            adjusted.select_all()
        } else {
            adjusted
        };
        if self.host.focused {
            selected.with_caret(
                CaretVisual { visible: true, ..selected.host.caret },
            ).update_focused_state()
        } else {
            selected.with_caret(
                CaretVisual { visible: false, ..selected.host.caret },
            ).with_visual_state(VisualState::unfocused_for(selected.len())).emit(
                HostEvent::Refresh(self.state.target),
            )
        }
    }

    /// Re-derives selection and visual state after the text changed, unless
    /// the engine made the change itself.
    pub open spec fn force_update(self) -> Self {
        if self.state.self_update {
            Editor { state: StateView { self_update: false, ..self.state }, ..self }
        } else {
            let adjusted = self.adjust_selection();
            if adjusted.len() == 0 {
                adjusted.with_caret(adjusted.host.caret.with_offset(0)).with_visual_state(
                    VisualState::Empty,
                )
            } else {
                adjusted.with_visual_state(VisualState::Default)
            }
        }
    }

    /// Recomputes where the caret and the selection highlight are drawn, and
    /// scrolls the caret back into view in the pending direction.
    pub open spec fn update_cursor(self) -> Self {
        let selection = self.host.selection;
        let lo = selection.lo() as int;
        let hi = selection.hi() as int;
        let measured = CaretVisual {
            cursor_x: self.measure(0, selection.start as int).width,
            selection_x: self.measure(0, lo).width,
            selection_width: self.measure(lo, hi).width,
            ..self.host.caret
        };
        self.with_caret(
            measured.scrolled(self.host.viewport_width, self.state.direction),
        ).with_direction(Direction::Unset)
    }

    /// Binds the engine to the widgets its host names, hides the caret and
    /// shows an empty widget as empty.
    pub open spec fn init(self) -> Self {
        let bound = Editor {
            state: StateView {
                cursor: self.host.cursor,
                target: self.host.target,
                text_block: self.host.text_block,
                ..self.state
            },
            ..self
        }.with_caret(CaretVisual { visible: false, ..self.host.caret });
        if self.len() == 0 {
            bound.with_visual_state(VisualState::Empty).emit(HostEvent::Refresh(self.host.target))
        } else {
            bound
        }
    }

    /// Text dropped at `position`: inserted when the widget accepts drops
    /// and the position lies in its hit area.
    pub open spec fn drop_text(self, text: Seq<char>, position: Point) -> Self {
        if self.host.drop_policy == DropPolicy::Insert && self.host.bounds.covers(position) {
            self.insert_text(text)
        } else {
            self
        }
    }

    /// The effect of one action.
    pub open spec fn apply(self, action: TextAction, clipboard: Option<Seq<char>>) -> Self {
        match action {
            TextAction::KeyDown(event) => self.key_down(event, clipboard),
            TextAction::MouseDown(mouse) => self.mouse_down(mouse),
            TextAction::MouseUp => self.mouse_up(),
            TextAction::MouseMove(position) => self.mouse_move(position),
            TextAction::Drop(text, position) => self.drop_text(text@, position),
            TextAction::FocusedChanged => self.focused_changed(),
            TextAction::SelectionChanged => Editor {
                state: StateView { update_selection: true, ..self.state },
                ..self
            },
            TextAction::ForceUpdate => self.force_update(),
        }
    }

    /// The clipboard after one action.
    pub open spec fn apply_clipboard(
        self,
        action: TextAction,
        clipboard: Option<Seq<char>>,
    ) -> Option<Seq<char>> {
        match action {
            TextAction::KeyDown(event) => self.key_down_clipboard(event, clipboard),
            _ => clipboard,
        }
    }

    /// This state with the oldest queued action taken off the queue.
    pub open spec fn dequeued(self) -> Self {
        Editor { state: StateView { queue: self.state.queue.drop_first(), ..self.state }, ..self }
    }

    /// One logical tick: the oldest queued action, if there is one, is taken
    /// off the queue and applied, and a changed selection is marked for the
    /// next post-layout tick.
    pub open spec fn update(self, clipboard: Option<Seq<char>>) -> Self {
        if self.state.queue.len() == 0 {
            self
        } else {
            let applied = self.dequeued().apply(self.state.queue[0], clipboard);
            if applied.host.selection != self.host.selection {
                Editor { state: StateView { update_selection: true, ..applied.state }, ..applied }
            } else {
                applied
            }
        }
    }

    /// The clipboard after one logical tick.
    pub open spec fn update_clipboard(self, clipboard: Option<Seq<char>>) -> Option<Seq<char>> {
        if self.state.queue.len() == 0 {
            clipboard
        } else {
            self.dequeued().apply_clipboard(self.state.queue[0], clipboard)
        }
    }

    /// One post-layout tick: the caret's visuals are recomputed if the
    /// selection was marked as changed, and the mark is cleared.
    pub open spec fn update_post_layout(self) -> Self {
        if self.state.update_selection {
            let updated = self.update_cursor();
            Editor { state: StateView { update_selection: false, ..updated.state }, ..updated }
        } else {
            self
        }
    }
}

} // verus!
