//! Semantic input binding: a pure mapping from device-independent key and
//! mouse codes to the game's `InputEvent` vocabulary. Stateless; unmapped
//! inputs yield no event rather than an error.

use vstd::prelude::*;

verus! {

/// One of the two cursor movement axes on the board.
#[derive(Clone, Copy, PartialEq, Eq, Structural, Debug)]
pub enum Axis {
    Horz,
    Vert,
}

/// A discrete action the player can trigger.
#[derive(Clone, Copy, PartialEq, Eq, Structural, Debug)]
pub enum Button {
    Num1,
    Num2,
    Num3,
    Num4,
    Num5,
    Num6,
    Num7,
    Num8,
    Num9,
    Select,
}

/// A device-independent key code, as delivered by the host runtime's
/// keyboard events. Keys the game does not bind are collapsed into the
/// unmapped variants.
#[derive(Clone, Copy, PartialEq, Eq, Structural, Debug)]
pub enum KeyCode {
    Up,
    Down,
    Left,
    Right,
    Key1,
    Key2,
    Key3,
    Key4,
    Key5,
    Key6,
    Key7,
    Key8,
    Key9,
    Escape,
    Other,
}

/// A device-independent mouse button code.
#[derive(Clone, Copy, PartialEq, Eq, Structural, Debug)]
pub enum MouseButton {
    Left,
    Middle,
    Right,
}

/// A semantic input event: a one-step cursor move along an axis, or a
/// button action optionally carrying the screen position it happened at.
#[derive(Clone, Copy, PartialEq, Eq, Debug)]
pub enum InputEvent {
    Axis(Axis, bool),
    Button(Button, Option<(i32, i32)>),
}

/// The digit a number button stands for, if it is one.
pub open spec fn digit_of(b: Button) -> Option<u8> {
    match b {
        Button::Num1 => Some(1u8),
        Button::Num2 => Some(2u8),
        Button::Num3 => Some(3u8),
        Button::Num4 => Some(4u8),
        Button::Num5 => Some(5u8),
        Button::Num6 => Some(6u8),
        Button::Num7 => Some(7u8),
        Button::Num8 => Some(8u8),
        Button::Num9 => Some(9u8),
        Button::Select => None,
    }
}

/// The event a key code is bound to: arrow keys move the cursor, number
/// keys enter digits, everything else is unmapped.
pub open spec fn key_binding(code: KeyCode) -> Option<InputEvent> {
    match code {
        KeyCode::Up => Some(InputEvent::Axis(Axis::Vert, false)),
        KeyCode::Down => Some(InputEvent::Axis(Axis::Vert, true)),
        KeyCode::Left => Some(InputEvent::Axis(Axis::Horz, false)),
        KeyCode::Right => Some(InputEvent::Axis(Axis::Horz, true)),
        KeyCode::Key1 => Some(InputEvent::Button(Button::Num1, None)),
        KeyCode::Key2 => Some(InputEvent::Button(Button::Num2, None)),
        KeyCode::Key3 => Some(InputEvent::Button(Button::Num3, None)),
        KeyCode::Key4 => Some(InputEvent::Button(Button::Num4, None)),
        KeyCode::Key5 => Some(InputEvent::Button(Button::Num5, None)),
        KeyCode::Key6 => Some(InputEvent::Button(Button::Num6, None)),
        KeyCode::Key7 => Some(InputEvent::Button(Button::Num7, None)),
        KeyCode::Key8 => Some(InputEvent::Button(Button::Num8, None)),
        KeyCode::Key9 => Some(InputEvent::Button(Button::Num9, None)),
        KeyCode::Escape => None,
        KeyCode::Other => None,
    }
}

/// Stateless table of bindings from raw device codes to semantic events.
pub struct InputBinding {}

impl InputBinding {
    /// The game's fixed binding table.
    pub fn new() -> InputBinding {
        InputBinding {}
    }

    /// Translates a key code; unmapped keys yield `None` and are dropped.
    pub fn resolve_key(&self, code: KeyCode) -> (r: Option<InputEvent>)
        ensures
            r == key_binding(code),
    {
        match code {
            KeyCode::Up => Some(InputEvent::Axis(Axis::Vert, false)),
            KeyCode::Down => Some(InputEvent::Axis(Axis::Vert, true)),
            KeyCode::Left => Some(InputEvent::Axis(Axis::Horz, false)),
            KeyCode::Right => Some(InputEvent::Axis(Axis::Horz, true)),
            KeyCode::Key1 => Some(InputEvent::Button(Button::Num1, None)),
            KeyCode::Key2 => Some(InputEvent::Button(Button::Num2, None)),
            KeyCode::Key3 => Some(InputEvent::Button(Button::Num3, None)),
            KeyCode::Key4 => Some(InputEvent::Button(Button::Num4, None)),
            KeyCode::Key5 => Some(InputEvent::Button(Button::Num5, None)),
            KeyCode::Key6 => Some(InputEvent::Button(Button::Num6, None)),
            KeyCode::Key7 => Some(InputEvent::Button(Button::Num7, None)),
            KeyCode::Key8 => Some(InputEvent::Button(Button::Num8, None)),
            KeyCode::Key9 => Some(InputEvent::Button(Button::Num9, None)),
            KeyCode::Escape => None,
            KeyCode::Other => None,
        }
    }

    /// Translates a mouse button press at screen position `(x, y)`: the
    /// primary button selects, the others are unmapped.
    pub fn resolve_mouse(&self, button: MouseButton, x: i32, y: i32) -> (r: Option<
        InputEvent,
    >)
        ensures
            button == MouseButton::Left ==> r == Some(
                InputEvent::Button(Button::Select, Some((x, y))),
            ),
            button != MouseButton::Left ==> r is None,
    {
        match button {
            MouseButton::Left => Some(InputEvent::Button(Button::Select, Some((x, y)))),
            _ => None,
        }
    }

    /// Mouse motion is not bound to any action in this game.
    pub fn resolve_mouse_motion(&self, _x: i32, _y: i32, _dx: i32, _dy: i32) -> (r: Option<
        InputEvent,
    >)
        ensures
            r is None,
    {
        None
    }
}

} // verus!
