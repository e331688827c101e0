//! Input events: keys, key states, mouse buttons, and the per-frame button state.
use vstd::prelude::*;

verus! {

/// Mouse buttons.
#[derive(Clone, Copy, Debug, PartialEq, Eq, Structural)]
pub enum MouseButton {
    Left,
    Right,
    Middle,
}

/// Mouse-related events.
#[derive(Clone, Copy, Debug, PartialEq, Eq, Structural)]
pub enum MouseEvent {
    /// The mouse moved; holds its new position.
    Move { x: i32, y: i32 },
    /// A mouse button was pressed.
    Down(MouseButton),
    /// A mouse button was released.
    Up(MouseButton),
}

/// Keyboard keys: the letters, the two modifier keys and the two arrows used by the editor.
#[derive(Clone, Copy, Debug, PartialEq, Eq, Hash, Structural)]
pub enum Key {
    A,
    B,
    C,
    D,
    E,
    F,
    G,
    H,
    I,
    J,
    K,
    L,
    M,
    N,
    O,
    P,
    Q,
    R,
    S,
    T,
    U,
    V,
    W,
    X,
    Y,
    Z,
    Control,
    Alt,
    LeftArrow,
    RightArrow,
}

/// Whether a key was pressed or released.
#[derive(Clone, Copy, Debug, PartialEq, Eq, Structural)]
pub enum KeyState {
    Up,
    Down,
}

/// One key press or release.
#[derive(Clone, Copy, Debug, PartialEq, Eq, Structural)]
pub struct KeyboardEvent {
    pub key: Key,
    pub state: KeyState,
}

/// Button presses and releases seen during one frame: `Some(true)` pressed,
/// `Some(false)` released, `None` untouched.
#[derive(Clone, Copy, Debug, PartialEq, Eq, Structural)]
pub struct Keys {
    pub left: Option<bool>,
    pub right: Option<bool>,
    pub up: Option<bool>,
    pub down: Option<bool>,
    pub x: Option<bool>,
    pub c: Option<bool>,
    pub escape: Option<bool>,
    pub mouse: Option<bool>,
}

/// The button state of a frame in which nothing happened.
pub open spec fn untouched() -> Keys {
    Keys {
        left: None,
        right: None,
        up: None,
        down: None,
        x: None,
        c: None,
        escape: None,
        mouse: None,
    }
}

impl Keys {
    /// No button touched.
    pub fn new() -> (r: Keys)
        ensures
            r == untouched(),
    {
        Keys {
            left: None,
            right: None,
            up: None,
            down: None,
            x: None,
            c: None,
            escape: None,
            mouse: None,
        }
    }

    /// Forgets what happened during the frame.
    pub fn reset(&mut self)
        ensures
            *final(self) == untouched(),
    {
        *self = Self::new()
    }
}

} // verus!
