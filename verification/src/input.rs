//! Raw input notifications delivered to the widget tree.

use vstd::prelude::*;

verus! {

/// The state of an input button.
#[derive(Clone, Copy, Debug, PartialEq, Eq, Structural)]
pub enum ButtonState {
    /// The button is pressed.
    Pressed,
    /// The button is released.
    Released,
}

/// An external input notification, delivered one at a time and never
/// reordered by the core.
#[derive(Clone, Copy, Debug, PartialEq, Eq, Structural)]
pub enum Event {
    /// The pointer moved; the current position travels beside the event.
    CursorMoved,
    /// A pointer button changed state.
    Button(ButtonState),
    /// A keyboard key changed state.
    Keyboard(ButtonState),
}

} // verus!
