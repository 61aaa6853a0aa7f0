//! Terminal input, and which of it ends the dashboard.

use vstd::prelude::*;

verus! {

/// The key of a key press, as far as the dashboard tells keys apart.
#[derive(Clone, Copy, Debug, PartialEq, Eq, Structural)]
pub enum Key {
    /// A key that produces a character.
    Char(char),
    /// Any other key.
    Other,
}

/// The modifier keys held down during a key press.
#[derive(Clone, Copy, Debug, PartialEq, Eq, Structural)]
pub struct Modifiers {
    pub shift: bool,
    pub control: bool,
    pub alt: bool,
}

impl Modifiers {
    /// No modifier key.
    pub open spec fn none_of() -> Modifiers {
        Modifiers { shift: false, control: false, alt: false }
    }

    /// The control key and no other.
    pub open spec fn control_of() -> Modifiers {
        Modifiers { shift: false, control: true, alt: false }
    }

    /// No modifier key.
    pub fn none() -> (modifiers: Modifiers)
        ensures
            modifiers == Modifiers::none_of(),
    {
        Modifiers { shift: false, control: false, alt: false }
    }

    /// The control key and no other.
    pub fn control() -> (modifiers: Modifiers)
        ensures
            modifiers == Modifiers::control_of(),
    {
        Modifiers { shift: false, control: true, alt: false }
    }
}

/// One event read from the terminal.
#[derive(Clone, Copy, Debug, PartialEq, Eq, Structural)]
pub enum InputEvent {
    /// A key was pressed.
    Key { key: Key, modifiers: Modifiers },
    /// The terminal was resized to this number of columns and rows.
    Resize { width: u16, height: u16 },
    /// Anything else, such as a mouse event.
    Other,
}

/// The events that end the dashboard: `q` or `Q` with any modifiers, and `c`
/// with the control key and no other modifier.
pub open spec fn quits(event: InputEvent) -> bool {
    event matches InputEvent::Key { key: Key::Char(c), modifiers }
        && (c == 'q' || c == 'Q' || (c == 'c' && modifiers == Modifiers::control_of()))
}

/// Whether `event` ends the dashboard. A resize and every other event do not:
/// the next frame is laid out for the size the terminal then has.
pub fn is_quit(event: &InputEvent) -> (quit: bool)
    ensures
        quit == quits(*event),
{
    match event {
        InputEvent::Key { key: Key::Char(c), modifiers } => {
            *c == 'q' || *c == 'Q' || (*c == 'c' && modifiers.control && !modifiers.shift
                && !modifiers.alt)
        },
        _ => false,
    }
}

} // verus!
