//! Input events as the host hands them to the engine.

use vstd::prelude::*;

use crate::geometry::Point;

verus! {

/// The keys the engine tells apart. The flag of a letter key says whether the
/// letter arrived in upper case; every key without an editing function is `Other`.
#[derive(Clone, Copy, Debug, PartialEq, Eq, Structural)]
pub enum Key {
    Left,
    Right,
    Backspace,
    Delete,
    Enter,
    Escape,
    A(bool),
    C(bool),
    V(bool),
    X(bool),
    Other,
}

/// A key press together with the text it produces.
#[derive(Clone, Debug)]
pub struct KeyEvent {
    pub key: Key,
    pub text: String,
}

impl KeyEvent {
    pub fn new(key: Key, text: String) -> (event: Self)
        ensures
            event.key == key,
            event.text == text,
    {
        KeyEvent { key, text }
    }
}

#[derive(Clone, Copy, Debug, PartialEq, Eq, Structural)]
pub enum MouseButton {
    Left,
    Middle,
    Right,
}

/// A pointer press.
#[derive(Clone, Copy, Debug, PartialEq, Eq, Structural)]
pub struct Mouse {
    pub position: Point,
    pub button: MouseButton,
}

impl Mouse {
    pub fn new(position: Point, button: MouseButton) -> (mouse: Self)
        ensures
            mouse == (Mouse { position, button }),
    {
        Mouse { position, button }
    }
}

/// Which modifier keys are held down.
#[derive(Clone, Copy, Debug, PartialEq, Eq, Structural)]
pub struct KeyboardState {
    pub shift_down: bool,
    pub ctrl_down: bool,
    pub home_down: bool,
}

impl KeyboardState {
    /// No modifier held.
    pub fn new() -> (keyboard: Self)
        ensures
            keyboard == (KeyboardState { shift_down: false, ctrl_down: false, home_down: false }),
    {
        KeyboardState { shift_down: false, ctrl_down: false, home_down: false }
    }

    pub fn is_shift_down(&self) -> (down: bool)
        ensures
            down == self.shift_down,
    {
        self.shift_down
    }

    pub fn is_ctrl_down(&self) -> (down: bool)
        ensures
            down == self.ctrl_down,
    {
        self.ctrl_down
    }

    pub fn is_home_down(&self) -> (down: bool)
        ensures
            down == self.home_down,
    {
        self.home_down
    }
}

impl Default for KeyboardState {
    fn default() -> (keyboard: Self)
        ensures
            keyboard == (KeyboardState { shift_down: false, ctrl_down: false, home_down: false }),
    {
        KeyboardState::new()
    }
}

/// The modifier that turns X, C, V and A into cut, copy, paste and select-all
/// on the host platform.
#[derive(Clone, Copy, Debug, PartialEq, Eq, Structural)]
pub enum CommandModifier {
    /// The control key, as on most platforms.
    Ctrl,
    /// The home (meta) key, as on Apple platforms.
    Home,
}

} // verus!
