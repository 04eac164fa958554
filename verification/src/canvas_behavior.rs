//! The interaction behaviour of a drawing canvas: it takes the focus on a
//! pointer press and otherwise leaves its input alone.

use vstd::prelude::*;

use crate::context::{Context, ContextView, Entity, HostEvent};
use crate::geometry::Point;
use crate::input::Mouse;

verus! {

/// The inputs a canvas accepts.
#[derive(Clone, Debug)]
pub enum CanvasAction {
    MouseDown(Mouse),
    Drop(String, Point),
    FocusedChanged,
}

/// The state of a canvas behaviour.
pub struct CanvasBehaviorState {
    target: Entity,
    pressed: bool,
}

/// The mathematical content of a [`CanvasBehaviorState`].
pub struct CanvasView {
    pub target: Entity,
    pub pressed: bool,
}

impl View for CanvasBehaviorState {
    type V = CanvasView;

    closed spec fn view(&self) -> CanvasView {
        CanvasView { target: self.target, pressed: self.pressed }
    }
}

/// A canvas behaviour and its host at one moment.
pub struct CanvasModel<M> {
    pub state: CanvasView,
    pub host: ContextView<M>,
}

/// The canvas `state` and its host `ctx` as one mathematical state.
pub open spec fn canvas<M>(state: CanvasBehaviorState, ctx: Context<M>) -> CanvasModel<M> {
    CanvasModel { state: state@, host: ctx@ }
}

impl<M> CanvasModel<M> {
    pub open spec fn request_focus(self) -> Self {
        CanvasModel {
            host: ContextView {
                events: self.host.events.push(HostEvent::RequestFocus(self.state.target)),
                ..self.host
            },
            ..self
        }
    }

    /// A pointer press: the canvas is pressed, and asks for the focus unless
    /// it has it.
    pub open spec fn mouse_down(self) -> Self {
        let pressed = CanvasModel { state: CanvasView { pressed: true, ..self.state }, ..self };
        if self.host.focused {
            pressed
        } else {
            pressed.request_focus()
        }
    }

    /// Binds the behaviour to the widget its host names and has the host
    /// refresh that widget.
    pub open spec fn init(self) -> Self {
        CanvasModel {
            state: CanvasView { target: self.host.target, ..self.state },
            host: ContextView {
                events: self.host.events.push(HostEvent::Refresh(self.host.target)),
                ..self.host
            },
        }
    }

    /// The effect of one message: only a pointer press has one; dropped
    /// text and focus changes are ignored.
    pub open spec fn apply(self, action: CanvasAction) -> Self {
        match action {
            CanvasAction::MouseDown(_) => self.mouse_down(),
            CanvasAction::Drop(_, _) => self,
            CanvasAction::FocusedChanged => self,
        }
    }

    /// The effect of a batch of messages, applied in order.
    pub open spec fn apply_all(self, actions: Seq<CanvasAction>) -> Self
        decreases actions.len(),
    {
        if actions.len() == 0 {
            self
        } else {
            self.apply_all(actions.drop_last()).apply(actions.last())
        }
    }
}

impl Default for CanvasBehaviorState {
    fn default() -> (state: Self)
        ensures
            state@ == (CanvasView { target: Entity(0), pressed: false }),
    {
        CanvasBehaviorState::new()
    }
}

impl CanvasBehaviorState {
    /// A canvas behaviour that is not pressed and not bound to a widget yet.
    pub fn new() -> (state: Self)
        ensures
            state@ == (CanvasView { target: Entity(0), pressed: false }),
    {
        CanvasBehaviorState { target: Entity(0), pressed: false }
    }

    pub fn is_pressed(&self) -> (pressed: bool)
        ensures
            pressed == self@.pressed,
    {
        self.pressed
    }

    pub fn target(&self) -> (target: Entity)
        ensures
            target == self@.target,
    {
        self.target
    }

    pub fn request_focus<M>(&self, ctx: &mut Context<M>)
        ensures
            canvas(*self, *final(ctx)) == canvas(*self, *old(ctx)).request_focus(),
    {
        ctx.events.push(HostEvent::RequestFocus(self.target));
    }

    /// Handles a pointer press.
    pub fn mouse_down<M>(&mut self, ctx: &mut Context<M>, _mouse: Mouse)
        ensures
            canvas(*final(self), *final(ctx)) == canvas(*old(self), *old(ctx)).mouse_down(),
    {
        self.pressed = true;
        if !ctx.focused {
            self.request_focus(ctx);
            return ;
        }
    }

    /// Whether the canvas has the focus.
    pub fn focused<M>(&self, ctx: &Context<M>) -> (focused: bool)
        ensures
            focused == ctx@.focused,
    {
        ctx.focused
    }

    /// Binds the behaviour to the widget `ctx` names.
    pub fn init<M>(&mut self, ctx: &mut Context<M>)
        ensures
            canvas(*final(self), *final(ctx)) == canvas(*old(self), *old(ctx)).init(),
    {
        self.target = ctx.target;
        ctx.events.push(HostEvent::Refresh(self.target));
    }

    /// Handles a batch of messages in the order in which they were sent.
    pub fn messages<M>(&mut self, messages: Vec<CanvasAction>, ctx: &mut Context<M>)
        ensures
            canvas(*final(self), *final(ctx)) == canvas(*old(self), *old(ctx)).apply_all(
                messages@,
            ),
    {
        let ghost start = canvas(*self, *ctx);
        let mut i: usize = 0;
        while i < messages.len()
            invariant
                i <= messages.len(),
                canvas(*self, *ctx) == start.apply_all(messages@.take(i as int)),
            decreases messages.len() - i,
        {
            proof {
                assert(messages@.take(i + 1).drop_last() =~= messages@.take(i as int));
            }
            match &messages[i] {
                CanvasAction::MouseDown(p) => {
                    self.mouse_down(ctx, *p)
                },
                CanvasAction::Drop(_text, _position) => {},
                CanvasAction::FocusedChanged => {},
            }
            i = i + 1;
        }
        proof {
            assert(messages@.take(messages.len() as int) =~= messages@);
        }
    }
}

} // verus!
