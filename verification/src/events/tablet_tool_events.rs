//! Events of tablet tools.

use vstd::prelude::*;

verus! {

/// Whether a button went down or came up.
#[derive(Clone, Copy, Debug, PartialEq, Eq, Structural)]
pub enum ButtonState {
    Released,
    Pressed,
}

/// Whether the tool came close to the tablet or left it.
#[derive(Clone, Copy, Debug, PartialEq, Eq, Structural)]
pub enum ProximityState {
    Out,
    In,
}

/// Whether the tip of the tool touches the tablet.
#[derive(Clone, Copy, Debug, PartialEq, Eq, Structural)]
pub enum TipState {
    Up,
    Down,
}

/// One or more axes of the tool changed.
#[derive(Clone, Copy, Debug, PartialEq, Eq, Structural)]
pub struct AxisEvent {
    /// When the event happened, in milliseconds.
    pub time_msec: u32,
    /// The axes that changed, one bit each, as the native library numbers them.
    pub updated_axes: u32,
}

/// The tool came close to the tablet or left it.
#[derive(Clone, Copy, Debug, PartialEq, Eq, Structural)]
pub struct ProximityEvent {
    /// When the event happened, in milliseconds.
    pub time_msec: u32,
    /// Where the tool is now.
    pub state: ProximityState,
}

/// The tip of the tool touched the tablet or was lifted.
#[derive(Clone, Copy, Debug, PartialEq, Eq, Structural)]
pub struct TipEvent {
    /// When the event happened, in milliseconds.
    pub time_msec: u32,
    /// Where the tip is now.
    pub state: TipState,
}

/// A button of the tool changed its state.
#[derive(Clone, Copy, Debug, PartialEq, Eq, Structural)]
pub struct ButtonEvent {
    /// When the event happened, in milliseconds.
    pub time_msec: u32,
    /// The code of the button.
    pub button: u32,
    /// The state the button is in now.
    pub state: ButtonState,
}

} // verus!
