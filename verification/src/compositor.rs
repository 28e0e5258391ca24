//! The compositor as callbacks see it: the slot of application state and the
//! stores of the native objects.

use crate::handle::Handle;
use crate::handle::Liveness;
use crate::handle::ObjectStore;
use crate::input::Keyboard;
use crate::input::TabletTool;
use crate::input::XWaylandSurface;
use crate::state_slot::borrow_model;
use crate::state_slot::CompositorStateSlot;
use vstd::prelude::*;

verus! {

/// One compositor: what every callback is handed, next to the handle of the
/// object that the notification is about.
///
/// A callback gets the compositor for writing, and with it the right to put
/// another store in the place of one of these. A handle is good for the store
/// that issued it: what is proved of handles is proved of a store that goes
/// from step to step, and a callback that replaces a store leaves that ground.
pub struct Compositor<S> {
    /// The application state.
    pub state: CompositorStateSlot<S>,
    /// The keyboards that the native library has announced.
    pub keyboards: ObjectStore<Keyboard>,
    /// The tablet tools that the native library has announced.
    pub tablet_tools: ObjectStore<TabletTool>,
    /// The XWayland surfaces that the native library has announced.
    pub xwayland_surfaces: ObjectStore<XWaylandSurface>,
}

impl<S> Compositor<S> {
    /// A compositor that is starting up: no state is attached and no object
    /// is known.
    pub fn new() -> (compositor: Self)
        ensures
            compositor.state@ is Empty,
            compositor.keyboards@ == Map::<Handle<Keyboard>, Liveness<Keyboard>>::empty(),
            compositor.tablet_tools@ == Map::<Handle<TabletTool>, Liveness<TabletTool>>::empty(),
            compositor.xwayland_surfaces@ == Map::<
                Handle<XWaylandSurface>,
                Liveness<XWaylandSurface>,
            >::empty(),
    {
        Compositor {
            state: CompositorStateSlot::new(),
            keyboards: ObjectStore::new(),
            tablet_tools: ObjectStore::new(),
            xwayland_surfaces: ObjectStore::new(),
        }
    }

    /// Begins to shut the compositor down: the slot is closed, so that no
    /// notification reaches a handler from now on, and the application state
    /// is handed out if it was at rest in the slot. The objects stay as they
    /// are.
    pub fn terminate(&mut self) -> (payload: Option<S>)
        ensures
            final(self).state@ is Closed,
            payload == borrow_model(old(self).state@).1,
            final(self).keyboards == old(self).keyboards,
            final(self).tablet_tools == old(self).tablet_tools,
            final(self).xwayland_surfaces == old(self).xwayland_surfaces,
    {
        self.state.close()
    }
}

} // verus!
