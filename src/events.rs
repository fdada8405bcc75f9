use vstd::prelude::*;

verus! {

/// The mouse button (or wheel direction) of a click event.
#[derive(Debug, Clone, Copy, PartialEq, Eq, Structural)]
pub enum Button {
    Left,
    Middle,
    Right,
    ScrollUp,
    ScrollDown,
    ScrollLeft,
    ScrollRight,
    Back,
    Forward,
}

/// The number that the bar protocol gives each button.
pub open spec fn button_code(b: Button) -> u8 {
    match b {
        Button::Left => 1,
        Button::Middle => 2,
        Button::Right => 3,
        Button::ScrollUp => 4,
        Button::ScrollDown => 5,
        Button::ScrollLeft => 6,
        Button::ScrollRight => 7,
        Button::Back => 8,
        Button::Forward => 9,
    }
}

impl Button {
    /// The button with the protocol number `code`, if there is one.
    pub fn from_code(code: u8) -> (r: Option<Button>)
        ensures
            r matches Some(b) ==> button_code(b) == code,
            r is None <==> (code < 1 || code > 9),
    {
        match code {
            1 => Some(Button::Left),
            2 => Some(Button::Middle),
            3 => Some(Button::Right),
            4 => Some(Button::ScrollUp),
            5 => Some(Button::ScrollDown),
            6 => Some(Button::ScrollLeft),
            7 => Some(Button::ScrollRight),
            8 => Some(Button::Back),
            9 => Some(Button::Forward),
            _ => None,
        }
    }

    /// The protocol number of this button.
    pub fn code(&self) -> (r: u8)
        ensures
            r == button_code(*self),
    {
        match self {
            Button::Left => 1,
            Button::Middle => 2,
            Button::Right => 3,
            Button::ScrollUp => 4,
            Button::ScrollDown => 5,
            Button::ScrollLeft => 6,
            Button::ScrollRight => 7,
            Button::Back => 8,
            Button::Forward => 9,
        }
    }
}

/// A click or scroll that the bar reports on one of our segments.
#[derive(Debug)]
pub struct InputEvent {
    pub name: String,
    pub button: Button,
    pub modifiers: Vec<String>,
    pub x: i32,
    pub y: i32,
    pub relative_x: i32,
    pub relative_y: i32,
    pub output_x: i32,
    pub output_y: i32,
    pub width: i32,
    pub height: i32,
}

} // verus!
