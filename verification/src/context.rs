//! The host side of the engine: the properties of the edited widget that the
//! engine reads and writes, and the notifications it leaves for the host.

use vstd::prelude::*;

use crate::geometry::{Point, Rectangle};
use crate::input::{CommandModifier, KeyboardState};
use crate::measure::{TextMeasurer, TextMetrics};
use crate::selection::TextSelection;
use crate::text_buffer;
use crate::text_buffer::TextBuffer;
use crate::viewport::CaretVisual;

verus! {

/// Name of the visual state of an unfocused, empty text field.
pub const EMPTY_STATE: &'static str = "empty";

/// Name of the visual state of a focused, empty text field.
pub const EMPTY_FOCUSED_STATE: &'static str = "empty_focused";

/// Name of the visual state of a focused text field that holds text.
pub const FOCUSED_STATE: &'static str = "focused";

/// Identifies a widget of the host.
#[derive(Clone, Copy, Debug, PartialEq, Eq, Hash, Structural)]
pub struct Entity(pub u32);

impl Default for Entity {
    fn default() -> (entity: Self)
        ensures
            entity == Entity(0),
    {
        Entity(0)
    }
}

/// The visual states a text field can be shown in.
#[derive(Clone, Copy, Debug, PartialEq, Eq, Structural)]
pub enum VisualState {
    /// No special state: unfocused and holding text.
    Default,
    Empty,
    Focused,
    EmptyFocused,
}

impl VisualState {
    /// The visual state of a focused field whose buffer holds `len` units.
    pub open spec fn focused_for(len: int) -> VisualState {
        if len == 0 {
            VisualState::EmptyFocused
        } else {
            VisualState::Focused
        }
    }

    /// The visual state of an unfocused field whose buffer holds `len` units.
    pub open spec fn unfocused_for(len: int) -> VisualState {
        if len == 0 {
            VisualState::Empty
        } else {
            VisualState::Default
        }
    }

    /// The name under which the host's styling knows this state; the plain
    /// state has none.
    pub fn name(&self) -> (name: Option<&'static str>)
        ensures
            (*self == VisualState::Default) == name.is_none(),
            *self == VisualState::Empty ==> name == Some(EMPTY_STATE),
            *self == VisualState::Focused ==> name == Some(FOCUSED_STATE),
            *self == VisualState::EmptyFocused ==> name == Some(EMPTY_FOCUSED_STATE),
    {
        match self {
            VisualState::Default => None,
            VisualState::Empty => Some(EMPTY_STATE),
            VisualState::Focused => Some(FOCUSED_STATE),
            VisualState::EmptyFocused => Some(EMPTY_FOCUSED_STATE),
        }
    }
}

/// What the engine asks of its host. The host drains these after each tick.
#[derive(Clone, Copy, Debug, PartialEq, Eq, Structural)]
pub enum HostEvent {
    /// Give the keyboard focus to the widget.
    RequestFocus(Entity),
    /// Take the keyboard focus away from the widget.
    RemoveFocus(Entity),
    /// The user confirmed the text with Enter.
    Activate(Entity),
    /// The visual state of the widget changed and its styling must be refreshed.
    Refresh(Entity),
}

/// What becomes of text that is dropped onto the widget.
#[derive(Clone, Copy, Debug, PartialEq, Eq, Structural)]
pub enum DropPolicy {
    Insert,
    Ignore,
}

/// The host widget as the engine sees it.
///
/// The host owns every field and may change any of them between two ticks;
/// the engine tolerates a selection that points beyond the text.
pub struct Context<M> {
    pub text: TextBuffer,
    pub selection: TextSelection,
    pub focused: bool,
    pub font: String,
    pub font_size: u32,
    pub lose_focus_on_activation: bool,
    pub select_all_on_focus: bool,
    pub visual_state: VisualState,
    pub dirty: bool,
    pub position: Point,
    pub padding_left: i32,
    pub bounds: Rectangle,
    pub drop_policy: DropPolicy,
    pub caret: CaretVisual,
    pub viewport_width: u32,
    pub keyboard: KeyboardState,
    pub command_modifier: CommandModifier,
    pub target: Entity,
    pub cursor: Entity,
    pub text_block: Entity,
    pub events: Vec<HostEvent>,
    pub measurer: M,
}

/// The mathematical content of a [`Context`].
pub struct ContextView<M> {
    pub text: Seq<u16>,
    pub selection: TextSelection,
    pub focused: bool,
    pub font: Seq<char>,
    pub font_size: u32,
    pub lose_focus_on_activation: bool,
    pub select_all_on_focus: bool,
    pub visual_state: VisualState,
    pub dirty: bool,
    pub position: Point,
    pub padding_left: i32,
    pub bounds: Rectangle,
    pub drop_policy: DropPolicy,
    pub caret: CaretVisual,
    pub viewport_width: u32,
    pub keyboard: KeyboardState,
    pub command_modifier: CommandModifier,
    pub target: Entity,
    pub cursor: Entity,
    pub text_block: Entity,
    pub events: Seq<HostEvent>,
    pub measurer: M,
}

impl<M> View for Context<M> {
    type V = ContextView<M>;

    open spec fn view(&self) -> ContextView<M> {
        ContextView {
            text: self.text@,
            selection: self.selection,
            focused: self.focused,
            font: self.font@,
            font_size: self.font_size,
            lose_focus_on_activation: self.lose_focus_on_activation,
            select_all_on_focus: self.select_all_on_focus,
            visual_state: self.visual_state,
            dirty: self.dirty,
            position: self.position,
            padding_left: self.padding_left,
            bounds: self.bounds,
            drop_policy: self.drop_policy,
            caret: self.caret,
            viewport_width: self.viewport_width,
            keyboard: self.keyboard,
            command_modifier: self.command_modifier,
            target: self.target,
            cursor: self.cursor,
            text_block: self.text_block,
            events: self.events@,
            measurer: self.measurer,
        }
    }
}

impl<M: TextMeasurer> ContextView<M> {
    /// The number of code units in the buffer.
    pub open spec fn len(self) -> int {
        self.text.len() as int
    }

    /// Whether the selection lies inside the buffer.
    pub open spec fn selection_in_bounds(self) -> bool {
        self.selection.within(self.len())
    }

    /// The metrics of the units `start..end` in the widget's font; zero when
    /// that is not a range of the buffer.
    pub open spec fn measure(self, start: int, end: int) -> TextMetrics {
        match text_buffer::substring(self.text, start, end) {
            Some(part) => self.measurer.metrics(part, self.font, self.font_size),
            None => TextMetrics::zero(),
        }
    }

    /// The pixel position at which the text starts: the widget's position,
    /// its left padding and the current scroll offset.
    pub open spec fn text_origin(self) -> int {
        self.position.x + self.padding_left + self.caret.offset_value()
    }

    /// The pixel position of the boundary in front of unit `index`.
    pub open spec fn pixel_of(self, index: int) -> int {
        self.text_origin() + self.measure(0, index).width
    }

    /// The pixel positions of all boundaries `0..=len`, in order.
    pub open spec fn pixel_positions(self) -> Seq<int> {
        Seq::new((self.len() + 1) as nat, |index: int| self.pixel_of(index))
    }

    /// Whether the platform's command modifier is held down.
    pub open spec fn command_down(self) -> bool {
        match self.command_modifier {
            CommandModifier::Ctrl => self.keyboard.ctrl_down,
            CommandModifier::Home => self.keyboard.home_down,
        }
    }
}

impl<M: TextMeasurer> Context<M> {
    /// A context for an empty, unfocused text field measured by `measurer`:
    /// 12-pixel "Roboto-Regular", focus lost on activation, no selecting on
    /// focus, dropped text inserted, and the control key as command modifier.
    pub fn new(measurer: M) -> (ctx: Self)
        ensures
            ctx@.text == Seq::<u16>::empty(),
            ctx@.selection == TextSelection::at(0),
            !ctx@.focused,
            ctx@.font == "Roboto-Regular"@,
            ctx@.font_size == 12,
            ctx@.lose_focus_on_activation,
            !ctx@.select_all_on_focus,
            ctx@.visual_state == VisualState::Default,
            !ctx@.dirty,
            ctx@.position == (Point { x: 0, y: 0 }),
            ctx@.padding_left == 0,
            ctx@.bounds == (Rectangle { x: 0, y: 0, width: 0, height: 0 }),
            ctx@.drop_policy == DropPolicy::Insert,
            ctx@.caret == (CaretVisual {
                cursor_x: 0,
                selection_x: 0,
                selection_width: 0,
                scroll: 0,
                visible: false,
            }),
            ctx@.viewport_width == 0,
            ctx@.keyboard == (KeyboardState {
                shift_down: false,
                ctrl_down: false,
                home_down: false,
            }),
            ctx@.command_modifier == CommandModifier::Ctrl,
            ctx@.target == Entity(0),
            ctx@.cursor == Entity(0),
            ctx@.text_block == Entity(0),
            ctx@.events == Seq::<HostEvent>::empty(),
            ctx@.measurer == measurer,
    {
        Context {
            text: TextBuffer::new(),
            selection: TextSelection::new(0, 0),
            focused: false,
            font: "Roboto-Regular".to_owned(),
            font_size: 12,
            lose_focus_on_activation: true,
            select_all_on_focus: false,
            visual_state: VisualState::Default,
            dirty: false,
            position: Point::new(0, 0),
            padding_left: 0,
            bounds: Rectangle::new(0, 0, 0, 0),
            drop_policy: DropPolicy::Insert,
            caret: CaretVisual::new(),
            viewport_width: 0,
            keyboard: KeyboardState::new(),
            command_modifier: CommandModifier::Ctrl,
            target: Entity(0),
            cursor: Entity(0),
            text_block: Entity(0),
            events: Vec::new(),
            measurer,
        }
    }

    /// Replaces the text from outside the engine and resets the selection.
    /// Read back as a string, the new text is `text`.
    pub fn replace_text(&mut self, text: &str)
        ensures
            final(self)@ == (ContextView {
                text: crate::utf16::encode_utf16(text@),
                selection: TextSelection::at(0),
                ..old(self)@
            }),
            crate::utf16::decode_utf16(final(self)@.text) == text@,
    {
        self.text = TextBuffer::from_str(text);
        self.selection = TextSelection::new(0, 0);
    }

    /// Hands the pending notifications to the host and forgets them.
    pub fn take_events(&mut self) -> (events: Vec<HostEvent>)
        ensures
            events@ == old(self)@.events,
            final(self)@ == (ContextView { events: Seq::<HostEvent>::empty(), ..old(self)@ }),
    {
        let mut events: Vec<HostEvent> = Vec::new();
        events.append(&mut self.events);
        assert(events@ =~= old(self)@.events);
        events
    }
}

} // verus!
