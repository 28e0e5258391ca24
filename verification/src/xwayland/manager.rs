//! Global manager for the XWayland server.

use crate::compositor::Compositor;
use crate::dispatch::finish_destroy;
use crate::dispatch::plan_manager_dispatch;
use crate::dispatch::planned_outcome;
use crate::dispatch::DispatchOutcome;
use crate::handle::invalidated;
use crate::handle::store_next;
use crate::handle::StoreStep;
use crate::input::XWaylandSurface;
use crate::input::XWaylandSurfaceHandle;
use crate::listener::bound_kinds;
use crate::listener::listening;
use crate::listener::released;
use crate::listener::NotificationKind;
use crate::listener::Wrapper;
use vstd::prelude::*;

verus! {

/// What an application does about the notifications of the XWayland server.
/// Every method has a default that does nothing.
///
/// A callback is only ever made while the application state is attached and
/// at rest.
pub trait XWaylandManagerHandler<S> {
    /// Callback that is triggered when the XWayland library is ready.
    fn on_ready(&mut self, compositor: &mut Compositor<S>)
        requires
            old(compositor).state@ is Attached,
        default_ensures
            &*final(self) == &*old(self),
            *final(compositor) == *old(compositor),
    {
    }

    /// Callback that is triggered when a new XWayland surface appears. The
    /// surface is in the surface store of the compositor and live. The answer
    /// says whether the application takes the surface up. A handler that does
    /// not override this takes no surface up and changes nothing.
    fn new_surface(
        &mut self,
        compositor: &mut Compositor<S>,
        surface: XWaylandSurfaceHandle,
    ) -> (answer: Option<()>)
        requires
            old(compositor).state@ is Attached,
            old(compositor).xwayland_surfaces.live(surface),
        default_ensures
            answer is None,
            &*final(self) == &*old(self),
            *final(compositor) == *old(compositor),
    {
        None
    }
}

/// Calls `on_ready` of `handler`, which may be a handler of any type, one
/// behind a trait object too.
fn call_on_ready<S, H: XWaylandManagerHandler<S> + ?Sized>(
    handler: &mut H,
    compositor: &mut Compositor<S>,
)
    requires
        old(compositor).state@ is Attached,
    ensures
        (exists|inner: &mut H, context: &mut Compositor<S>|
            {
                &&& #[trigger] call_ensures(H::on_ready, (inner, context), ())
                &&& &*inner == &*old(handler)
                &&& &*final(inner) == &*final(handler)
                &&& *context == *old(compositor)
                &&& *final(context) == *final(compositor)
            }),
{
    handler.on_ready(compositor)
}

/// Calls `new_surface` of `handler`, which may be a handler of any type, one
/// behind a trait object too, and returns its answer.
fn call_new_surface<S, H: XWaylandManagerHandler<S> + ?Sized>(
    handler: &mut H,
    compositor: &mut Compositor<S>,
    surface: XWaylandSurfaceHandle,
) -> (answer: Option<()>)
    requires
        old(compositor).state@ is Attached,
        old(compositor).xwayland_surfaces.live(surface),
    ensures
        (exists|inner: &mut H, context: &mut Compositor<S>, given: Option<()>|
            {
                &&& #[trigger] call_ensures(H::new_surface, (inner, context, surface), given)
                &&& answer == given
                &&& &*inner == &*old(handler)
                &&& &*final(inner) == &*final(handler)
                &&& *context == *old(compositor)
                &&& *final(context) == *final(compositor)
            }),
{
    handler.new_surface(compositor, surface)
}

/// A boxed handler is a handler: a manager can hold a handler whose type is
/// chosen at run time. Each callback is handed on to the handler in the box,
/// once and with the same arguments; what the call makes of that handler and
/// of the compositor is what is left behind, and its answer is the answer.
impl<S, H: XWaylandManagerHandler<S> + ?Sized> XWaylandManagerHandler<S> for Box<H> {
    fn on_ready(&mut self, compositor: &mut Compositor<S>)
        ensures
            (exists|inner: &mut H, context: &mut Compositor<S>|
                {
                    &&& #[trigger] call_ensures(H::on_ready, (inner, context), ())
                    &&& &*inner == &**old(self)
                    &&& &*final(inner) == &**final(self)
                    &&& *context == *old(compositor)
                    &&& *final(context) == *final(compositor)
                }),
    {
        call_on_ready(&mut **self, compositor)
    }

    fn new_surface(
        &mut self,
        compositor: &mut Compositor<S>,
        surface: XWaylandSurfaceHandle,
    ) -> (answer: Option<()>)
        ensures
            (exists|inner: &mut H, context: &mut Compositor<S>, given: Option<()>|
                {
                    &&& #[trigger] call_ensures(H::new_surface, (inner, context, surface), given)
                    &&& answer == given
                    &&& &*inner == &**old(self)
                    &&& &*final(inner) == &**final(self)
                    &&& *context == *old(compositor)
                    &&& *final(context) == *final(compositor)
                }),
    {
        call_new_surface(&mut **self, compositor, surface)
    }
}

/// The owner of the listener bindings of one XWayland surface that the
/// application took up.
pub struct XWaylandSurfaceWrapper {
    wrapper: Wrapper<XWaylandSurfaceHandle>,
}

impl XWaylandSurfaceWrapper {
    /// The handle of the surface of this wrapper.
    pub closed spec fn handle(&self) -> XWaylandSurfaceHandle {
        self.wrapper@.data
    }

    /// The bindings of this wrapper, each as its kind and whether it is bound.
    pub closed spec fn bindings(&self) -> Seq<(NotificationKind, bool)> {
        self.wrapper@.bindings
    }

    /// Whether this wrapper still listens to notifications of `kind`.
    pub open spec fn listens_to(&self, kind: NotificationKind) -> bool {
        listening(self.bindings(), kind)
    }

    /// A weak reference to the surface.
    pub fn surface(&self) -> (surface: XWaylandSurfaceHandle)
        ensures
            surface == self.handle(),
    {
        *self.wrapper.data()
    }

    /// The entry point for the notification that the surface is destroyed,
    /// and what the owner of the wrapper calls before it drops the wrapper:
    /// the bindings are released and the surface is invalidated, so that
    /// every handle to it reports that it is destroyed. A surface has no
    /// handler of its own, so nothing is called. The kinds returned are those
    /// of the subscriptions to remove from the native source.
    pub fn destroy_notify<S>(&mut self, compositor: &mut Compositor<S>) -> (removed: Vec<
        NotificationKind,
    >)
        ensures
            removed@ == bound_kinds(old(self).bindings()),
            final(self).bindings() == released(old(self).bindings()),
            final(self).handle() == old(self).handle(),
            final(compositor).xwayland_surfaces@ == invalidated(
                old(compositor).xwayland_surfaces@,
                old(self).handle(),
            ),
            final(compositor).state == old(compositor).state,
            final(compositor).keyboards == old(compositor).keyboards,
            final(compositor).tablet_tools == old(compositor).tablet_tools,
    {
        let surface = *self.wrapper.data();
        finish_destroy(&mut self.wrapper, &mut compositor.xwayland_surfaces, surface)
    }
}

/// What the answer of the handler makes of a new surface. `Some` takes the
/// surface up: the compositor stays as the handler left it, and there is a
/// wrapper for the surface that listens for its destruction. `None` turns the
/// surface down: it is invalidated, and there is no wrapper.
pub open spec fn surface_wired<S>(
    pre: Compositor<S>,
    surface: XWaylandSurfaceHandle,
    answer: Option<()>,
    post: Compositor<S>,
    wrapper: Option<XWaylandSurfaceWrapper>,
) -> bool {
    &&& post.state == pre.state
    &&& post.keyboards == pre.keyboards
    &&& post.tablet_tools == pre.tablet_tools
    &&& match answer {
        Some(_) => {
            &&& post.xwayland_surfaces == pre.xwayland_surfaces
            &&& wrapper is Some
            &&& wrapper->Some_0.handle() == surface
            &&& wrapper->Some_0.bindings() == seq![(NotificationKind::Destroyed, true)]
        },
        None => {
            &&& post.xwayland_surfaces@ == invalidated(pre.xwayland_surfaces@, surface)
            &&& wrapper is None
        },
    }
}

/// Acts on the answer that the handler gave for the new surface `surface`:
/// wires a wrapper for a surface that was taken up, and gives up a surface
/// that was not.
pub fn wire_surface<S>(
    compositor: &mut Compositor<S>,
    surface: XWaylandSurfaceHandle,
    answer: Option<()>,
) -> (wrapper: Option<XWaylandSurfaceWrapper>)
    ensures
        surface_wired(*old(compositor), surface, answer, *final(compositor), wrapper),
{
    match answer {
        Some(_) => {
            let mut kinds: Vec<NotificationKind> = Vec::new();
            kinds.push(NotificationKind::Destroyed);
            let wrapper = XWaylandSurfaceWrapper { wrapper: Wrapper::new(&kinds, surface) };
            assert(wrapper.bindings() =~= seq![(NotificationKind::Destroyed, true)]);
            Some(wrapper)
        },
        None => {
            compositor.xwayland_surfaces.invalidate(surface);
            None
        },
    }
}

/// The owner of the listener bindings of the XWayland server and of the
/// handler that the application gave for it.
pub struct XWaylandManager<H> {
    wrapper: Wrapper<H>,
}

impl<H> XWaylandManager<H> {
    /// The handler of this manager.
    pub closed spec fn handler(&self) -> H {
        self.wrapper@.data
    }

    /// The bindings of this manager, each as its kind and whether it is bound.
    pub closed spec fn bindings(&self) -> Seq<(NotificationKind, bool)> {
        self.wrapper@.bindings
    }

    /// Whether this manager still listens to notifications of `kind`.
    pub open spec fn listens_to(&self, kind: NotificationKind) -> bool {
        listening(self.bindings(), kind)
    }

    /// A manager that calls `handler`, with its entry points bound.
    pub fn new(handler: H) -> (manager: Self)
        ensures
            manager.handler() == handler,
            manager.bindings() == seq![
                (NotificationKind::Ready, true),
                (NotificationKind::NewSurface, true),
            ],
    {
        let mut kinds: Vec<NotificationKind> = Vec::new();
        kinds.push(NotificationKind::Ready);
        kinds.push(NotificationKind::NewSurface);
        let manager = XWaylandManager { wrapper: Wrapper::new(&kinds, handler) };
        assert(manager.bindings() =~= seq![
            (NotificationKind::Ready, true),
            (NotificationKind::NewSurface, true),
        ]);
        manager
    }

    /// The entry point for the notification that the XWayland server is
    /// ready. If the application state is attached and at rest and the manager
    /// still listens to this notification, then `on_ready` of the handler is
    /// called once, and what that call makes of the handler and the compositor
    /// is what is left behind. Otherwise nothing is called and nothing is
    /// changed.
    pub fn on_ready_notify<S>(&mut self, compositor: &mut Compositor<S>) -> (outcome:
        DispatchOutcome) where H: XWaylandManagerHandler<S>
        ensures
            outcome == planned_outcome(
                old(compositor).state@,
                old(self).listens_to(NotificationKind::Ready),
                true,
            ),
            (outcome != DispatchOutcome::Delivered ==> {
                &&& *final(self) == *old(self)
                &&& *final(compositor) == *old(compositor)
            }),
            (outcome == DispatchOutcome::Delivered ==> exists|
                handler: &mut H,
                context: &mut Compositor<S>,
            |
                {
                    &&& #[trigger] call_ensures(H::on_ready, (handler, context), ())
                    &&& *handler == old(self).handler()
                    &&& *final(handler) == final(self).handler()
                    &&& *context == *old(compositor)
                    &&& *final(context) == *final(compositor)
                }),
            final(self).bindings() == old(self).bindings(),
    {
        let outcome = plan_manager_dispatch(
            &compositor.state,
            &self.wrapper,
            NotificationKind::Ready,
        );
        if let DispatchOutcome::Delivered = outcome {
            self.wrapper.data_mut().on_ready(compositor);
        }
        outcome
    }

    /// The entry point for the notification of a new XWayland surface. If the
    /// application state is attached and at rest and the manager still listens
    /// to this notification, the surface is put into the surface store of the
    /// compositor, `new_surface` of the handler is called once with the handle
    /// of the surface, and its answer is acted on as [`wire_surface`] says: a
    /// surface that the application takes up gets a wrapper, which is
    /// returned; one that it turns down is invalidated again. Otherwise
    /// nothing is called and nothing is changed.
    pub fn new_surface_notify<S>(
        &mut self,
        compositor: &mut Compositor<S>,
        surface: XWaylandSurface,
    ) -> (report: (DispatchOutcome, Option<XWaylandSurfaceWrapper>)) where
        H: XWaylandManagerHandler<S>,

        ensures
            report.0 == planned_outcome(
                old(compositor).state@,
                old(self).listens_to(NotificationKind::NewSurface),
                true,
            ),
            (report.0 != DispatchOutcome::Delivered ==> {
                &&& *final(self) == *old(self)
                &&& *final(compositor) == *old(compositor)
                &&& report.1 is None
            }),
            (report.0 == DispatchOutcome::Delivered ==> exists|
                handler: &mut H,
                context: &mut Compositor<S>,
                handle: XWaylandSurfaceHandle,
                answer: Option<()>,
            |
                {
                    &&& #[trigger] call_ensures(H::new_surface, (handler, context, handle), answer)
                    &&& *handler == old(self).handler()
                    &&& *final(handler) == final(self).handler()
                    &&& store_next(
                        old(compositor).xwayland_surfaces@,
                        StoreStep::Insert(handle, surface),
                        context.xwayland_surfaces@,
                    )
                    &&& context.state == old(compositor).state
                    &&& context.keyboards == old(compositor).keyboards
                    &&& context.tablet_tools == old(compositor).tablet_tools
                    &&& surface_wired(*final(context), handle, answer, *final(compositor), report.1)
                }),
            final(self).bindings() == old(self).bindings(),
    {
        let outcome = plan_manager_dispatch(
            &compositor.state,
            &self.wrapper,
            NotificationKind::NewSurface,
        );
        if let DispatchOutcome::Delivered = outcome {
            let handle = compositor.xwayland_surfaces.insert(surface);
            let answer = self.wrapper.data_mut().new_surface(compositor, handle);
            let wrapper = wire_surface(compositor, handle, answer);
            (outcome, wrapper)
        } else {
            (outcome, None)
        }
    }

    /// Releases the bindings of the manager when the XWayland server goes
    /// away, and returns the kinds of the subscriptions to remove from the
    /// native source.
    pub fn teardown(&mut self) -> (removed: Vec<NotificationKind>)
        ensures
            removed@ == bound_kinds(old(self).bindings()),
            final(self).bindings() == released(old(self).bindings()),
            final(self).handler() == old(self).handler(),
    {
        self.wrapper.teardown()
    }
}

} // verus!
