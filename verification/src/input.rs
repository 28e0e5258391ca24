//! The native objects as this side sees them: plain values that carry the
//! identity of the object, kept in the stores of a compositor and reached
//! through handles.

use crate::handle::Handle;
use vstd::prelude::*;

verus! {

/// An input device of the native library, known by its stable identity.
#[derive(Clone, Copy, Debug, PartialEq, Eq, Structural, Hash)]
pub struct InputDevice {
    /// The identity that the native library gives to the device.
    pub id: u64,
}

/// A keyboard.
#[derive(Clone, Copy, Debug, PartialEq, Eq, Structural)]
pub struct Keyboard {
    /// The input device that the keyboard is.
    pub device: InputDevice,
}

/// A tablet tool.
#[derive(Clone, Copy, Debug, PartialEq, Eq, Structural)]
pub struct TabletTool {
    /// The input device that the tool belongs to.
    pub device: InputDevice,
}

/// A surface of the XWayland server, known by its stable identity.
#[derive(Clone, Copy, Debug, PartialEq, Eq, Structural)]
pub struct XWaylandSurface {
    /// The identity that the native library gives to the surface.
    pub id: u64,
}

/// A handle to a [`Keyboard`] in the keyboard store of a compositor.
pub type KeyboardHandle = Handle<Keyboard>;

/// A handle to a [`TabletTool`] in the tablet tool store of a compositor.
pub type TabletToolHandle = Handle<TabletTool>;

/// A handle to an [`XWaylandSurface`] in the surface store of a compositor.
pub type XWaylandSurfaceHandle = Handle<XWaylandSurface>;

} // verus!
