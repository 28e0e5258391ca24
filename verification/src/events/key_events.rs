//! Events of keyboards.

use vstd::prelude::*;

verus! {

/// Whether a key went down or came up.
#[derive(Clone, Copy, Debug, PartialEq, Eq, Structural)]
pub enum KeyState {
    Released,
    Pressed,
}

/// A key changed its state.
#[derive(Clone, Copy, Debug, PartialEq, Eq, Structural)]
pub struct KeyEvent {
    /// When the event happened, in milliseconds.
    pub time_msec: u32,
    /// The code of the key.
    pub keycode: u32,
    /// The state the key is in now.
    pub state: KeyState,
}

} // verus!
