//! Input events as the widgets see them, and what a widget answers to one.

use vstd::prelude::*;

verus! {

/// What a component answers to an event.
#[derive(Clone, Copy, Debug, PartialEq, Eq, Structural)]
pub enum ComponentEventResult {
    /// The event was not for this component.
    Unhandled,
    /// The event changed what is shown: draw again.
    Redraw,
    /// The event was taken and changed nothing that is shown.
    NoRedraw,
}

/// The modifier keys held during a key event, one bit each.
#[derive(Clone, Copy, Debug, PartialEq, Eq, Structural)]
pub struct KeyModifiers {
    pub bits: u8,
}

/// No modifier key.
pub const KEY_MODIFIERS_NONE: u8 = 0;

/// The shift key alone.
pub const KEY_MODIFIERS_SHIFT: u8 = 1;

impl KeyModifiers {
    /// Whether no modifier key is held, or the shift key alone.
    pub open spec fn is_plain(self) -> bool {
        self.bits == 0 || self.bits == 1
    }
}

/// The key of a key event: a character, or any other key.
#[derive(Clone, Copy, Debug, PartialEq, Eq, Structural)]
pub enum KeyCode {
    Char(char),
    Other,
}

/// A key press.
#[derive(Clone, Copy, Debug, PartialEq, Eq, Structural)]
pub struct KeyEvent {
    pub code: KeyCode,
    pub modifiers: KeyModifiers,
}

/// The kind of a mouse event: the wheel turned one way or the other, or
/// anything else.
#[derive(Clone, Copy, Debug, PartialEq, Eq, Structural)]
pub enum MouseEventKind {
    ScrollDown,
    ScrollUp,
    Other,
}

/// A mouse event.
#[derive(Clone, Copy, Debug, PartialEq, Eq, Structural)]
pub struct MouseEvent {
    pub kind: MouseEventKind,
}

} // verus!
