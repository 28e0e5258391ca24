//! Handler for tablet tools.

use crate::compositor::Compositor;
use crate::dispatch::finish_destroy;
use crate::dispatch::plan_object_dispatch;
use crate::dispatch::planned_outcome;
use crate::dispatch::DispatchOutcome;
use crate::events::tablet_tool_events::AxisEvent;
use crate::events::tablet_tool_events::ButtonEvent;
use crate::events::tablet_tool_events::ProximityEvent;
use crate::events::tablet_tool_events::TipEvent;
use crate::handle::invalidated;
use crate::handle::refusal;
use crate::handle::store_next;
use crate::handle::HandleError;
use crate::handle::StoreStep;
use crate::input::InputDevice;
use crate::input::TabletTool;
use crate::input::TabletToolHandle;
use crate::listener::bound_kinds;
use crate::listener::listening;
use crate::listener::released;
use crate::listener::NotificationKind;
use crate::listener::Wrapper;
use vstd::prelude::*;

verus! {

/// What an application does about the notifications of a tablet tool. Every
/// method has a default that does nothing; an application overrides those it
/// cares about.
///
/// A callback is only ever made while the application state is attached and
/// at rest, and while the tool that it is about is live.
pub trait TabletToolHandler<S> {
    /// Callback that is triggered when an axis event fires.
    fn on_axis(&mut self, compositor: &mut Compositor<S>, tool: TabletToolHandle, event: &AxisEvent)
        requires
            old(compositor).state@ is Attached,
            old(compositor).tablet_tools.live(tool),
        default_ensures
            &*final(self) == &*old(self),
            *final(compositor) == *old(compositor),
    {
    }

    /// Callback that is triggered when a tablet tool is brought close to the
    /// input source.
    fn on_proximity(
        &mut self,
        compositor: &mut Compositor<S>,
        tool: TabletToolHandle,
        event: &ProximityEvent,
    )
        requires
            old(compositor).state@ is Attached,
            old(compositor).tablet_tools.live(tool),
        default_ensures
            &*final(self) == &*old(self),
            *final(compositor) == *old(compositor),
    {
    }

    /// Callback that is triggered when the tip of a tablet tool touches the
    /// input source.
    fn on_tip(&mut self, compositor: &mut Compositor<S>, tool: TabletToolHandle, event: &TipEvent)
        requires
            old(compositor).state@ is Attached,
            old(compositor).tablet_tools.live(tool),
        default_ensures
            &*final(self) == &*old(self),
            *final(compositor) == *old(compositor),
    {
    }

    /// Callback that is triggered when a button is pressed on the tablet tool.
    fn on_button(
        &mut self,
        compositor: &mut Compositor<S>,
        tool: TabletToolHandle,
        event: &ButtonEvent,
    )
        requires
            old(compositor).state@ is Attached,
            old(compositor).tablet_tools.live(tool),
        default_ensures
            &*final(self) == &*old(self),
            *final(compositor) == *old(compositor),
    {
    }

    /// Callback that is triggered when the tablet tool is destroyed. It is the
    /// last callback for the tool, which is still live while it runs.
    fn destroyed(&mut self, compositor: &mut Compositor<S>, tool: TabletToolHandle)
        requires
            old(compositor).state@ is Attached,
            old(compositor).tablet_tools.live(tool),
        default_ensures
            &*final(self) == &*old(self),
            *final(compositor) == *old(compositor),
    {
    }
}

/// Calls `on_axis` of `handler`, which may be a handler of any type, one
/// behind a trait object too.
fn call_on_axis<S, H: TabletToolHandler<S> + ?Sized>(
    handler: &mut H,
    compositor: &mut Compositor<S>,
    tool: TabletToolHandle,
    event: &AxisEvent,
)
    requires
        old(compositor).state@ is Attached,
        old(compositor).tablet_tools.live(tool),
    ensures
        (exists|inner: &mut H, context: &mut Compositor<S>|
            {
                &&& #[trigger] call_ensures(H::on_axis, (inner, context, tool, event), ())
                &&& &*inner == &*old(handler)
                &&& &*final(inner) == &*final(handler)
                &&& *context == *old(compositor)
                &&& *final(context) == *final(compositor)
            }),
{
    handler.on_axis(compositor, tool, event)
}

/// Calls `on_proximity` of `handler`, which may be a handler of any type, one
/// behind a trait object too.
fn call_on_proximity<S, H: TabletToolHandler<S> + ?Sized>(
    handler: &mut H,
    compositor: &mut Compositor<S>,
    tool: TabletToolHandle,
    event: &ProximityEvent,
)
    requires
        old(compositor).state@ is Attached,
        old(compositor).tablet_tools.live(tool),
    ensures
        (exists|inner: &mut H, context: &mut Compositor<S>|
            {
                &&& #[trigger] call_ensures(H::on_proximity, (inner, context, tool, event), ())
                &&& &*inner == &*old(handler)
                &&& &*final(inner) == &*final(handler)
                &&& *context == *old(compositor)
                &&& *final(context) == *final(compositor)
            }),
{
    handler.on_proximity(compositor, tool, event)
}

/// Calls `on_tip` of `handler`, which may be a handler of any type, one
/// behind a trait object too.
fn call_on_tip<S, H: TabletToolHandler<S> + ?Sized>(
    handler: &mut H,
    compositor: &mut Compositor<S>,
    tool: TabletToolHandle,
    event: &TipEvent,
)
    requires
        old(compositor).state@ is Attached,
        old(compositor).tablet_tools.live(tool),
    ensures
        (exists|inner: &mut H, context: &mut Compositor<S>|
            {
                &&& #[trigger] call_ensures(H::on_tip, (inner, context, tool, event), ())
                &&& &*inner == &*old(handler)
                &&& &*final(inner) == &*final(handler)
                &&& *context == *old(compositor)
                &&& *final(context) == *final(compositor)
            }),
{
    handler.on_tip(compositor, tool, event)
}

/// Calls `on_button` of `handler`, which may be a handler of any type, one
/// behind a trait object too.
fn call_on_button<S, H: TabletToolHandler<S> + ?Sized>(
    handler: &mut H,
    compositor: &mut Compositor<S>,
    tool: TabletToolHandle,
    event: &ButtonEvent,
)
    requires
        old(compositor).state@ is Attached,
        old(compositor).tablet_tools.live(tool),
    ensures
        (exists|inner: &mut H, context: &mut Compositor<S>|
            {
                &&& #[trigger] call_ensures(H::on_button, (inner, context, tool, event), ())
                &&& &*inner == &*old(handler)
                &&& &*final(inner) == &*final(handler)
                &&& *context == *old(compositor)
                &&& *final(context) == *final(compositor)
            }),
{
    handler.on_button(compositor, tool, event)
}

/// Calls `destroyed` of `handler`, which may be a handler of any type, one
/// behind a trait object too.
fn call_destroyed<S, H: TabletToolHandler<S> + ?Sized>(
    handler: &mut H,
    compositor: &mut Compositor<S>,
    tool: TabletToolHandle,
)
    requires
        old(compositor).state@ is Attached,
        old(compositor).tablet_tools.live(tool),
    ensures
        (exists|inner: &mut H, context: &mut Compositor<S>|
            {
                &&& #[trigger] call_ensures(H::destroyed, (inner, context, tool), ())
                &&& &*inner == &*old(handler)
                &&& &*final(inner) == &*final(handler)
                &&& *context == *old(compositor)
                &&& *final(context) == *final(compositor)
            }),
{
    handler.destroyed(compositor, tool)
}

/// A boxed handler is a handler: a wrapper can hold a handler whose type is
/// chosen at run time. Each callback is handed on to the handler in the box,
/// once and with the same arguments, and what the call makes of that handler
/// and of the compositor is what is left behind.
impl<S, H: TabletToolHandler<S> + ?Sized> TabletToolHandler<S> for Box<H> {
    fn on_axis(&mut self, compositor: &mut Compositor<S>, tool: TabletToolHandle, event: &AxisEvent)
        ensures
            (exists|inner: &mut H, context: &mut Compositor<S>|
                {
                    &&& #[trigger] call_ensures(H::on_axis, (inner, context, tool, event), ())
                    &&& &*inner == &**old(self)
                    &&& &*final(inner) == &**final(self)
                    &&& *context == *old(compositor)
                    &&& *final(context) == *final(compositor)
                }),
    {
        call_on_axis(&mut **self, compositor, tool, event)
    }

    fn on_proximity(
        &mut self,
        compositor: &mut Compositor<S>,
        tool: TabletToolHandle,
        event: &ProximityEvent,
    )
        ensures
            (exists|inner: &mut H, context: &mut Compositor<S>|
                {
                    &&& #[trigger] call_ensures(H::on_proximity, (inner, context, tool, event), ())
                    &&& &*inner == &**old(self)
                    &&& &*final(inner) == &**final(self)
                    &&& *context == *old(compositor)
                    &&& *final(context) == *final(compositor)
                }),
    {
        call_on_proximity(&mut **self, compositor, tool, event)
    }

    fn on_tip(&mut self, compositor: &mut Compositor<S>, tool: TabletToolHandle, event: &TipEvent)
        ensures
            (exists|inner: &mut H, context: &mut Compositor<S>|
                {
                    &&& #[trigger] call_ensures(H::on_tip, (inner, context, tool, event), ())
                    &&& &*inner == &**old(self)
                    &&& &*final(inner) == &**final(self)
                    &&& *context == *old(compositor)
                    &&& *final(context) == *final(compositor)
                }),
    {
        call_on_tip(&mut **self, compositor, tool, event)
    }

    fn on_button(
        &mut self,
        compositor: &mut Compositor<S>,
        tool: TabletToolHandle,
        event: &ButtonEvent,
    )
        ensures
            (exists|inner: &mut H, context: &mut Compositor<S>|
                {
                    &&& #[trigger] call_ensures(H::on_button, (inner, context, tool, event), ())
                    &&& &*inner == &**old(self)
                    &&& &*final(inner) == &**final(self)
                    &&& *context == *old(compositor)
                    &&& *final(context) == *final(compositor)
                }),
    {
        call_on_button(&mut **self, compositor, tool, event)
    }

    fn destroyed(&mut self, compositor: &mut Compositor<S>, tool: TabletToolHandle)
        ensures
            (exists|inner: &mut H, context: &mut Compositor<S>|
                {
                    &&& #[trigger] call_ensures(H::destroyed, (inner, context, tool), ())
                    &&& &*inner == &**old(self)
                    &&& &*final(inner) == &**final(self)
                    &&& *context == *old(compositor)
                    &&& *final(context) == *final(compositor)
                }),
    {
        call_destroyed(&mut **self, compositor, tool)
    }
}

/// What a tablet tool wrapper keeps for its entry points.
struct TabletToolData<H> {
    tool: TabletToolHandle,
    handler: H,
}

/// The owner of the listener bindings of one tablet tool and of the handler
/// that the application gave for it.
pub struct TabletToolWrapper<H> {
    wrapper: Wrapper<TabletToolData<H>>,
}

impl<H> TabletToolWrapper<H> {
    /// The handle of the tool of this wrapper.
    pub closed spec fn handle(&self) -> TabletToolHandle {
        self.wrapper@.data.tool
    }

    /// The handler of this wrapper.
    pub closed spec fn handler(&self) -> H {
        self.wrapper@.data.handler
    }

    /// The bindings of this wrapper, each as its kind and whether it is bound.
    pub closed spec fn bindings(&self) -> Seq<(NotificationKind, bool)> {
        self.wrapper@.bindings
    }

    /// Whether this wrapper still listens to notifications of `kind`.
    pub open spec fn listens_to(&self, kind: NotificationKind) -> bool {
        listening(self.bindings(), kind)
    }

    /// Takes up a tablet tool that the native library has announced: puts it
    /// into the tablet tool store of the compositor and binds the entry points
    /// of the new wrapper, which calls `handler` from now on.
    pub fn new<S>(compositor: &mut Compositor<S>, device: InputDevice, handler: H) -> (wrapper:
        Self) where H: TabletToolHandler<S>
        ensures
            store_next(
                old(compositor).tablet_tools@,
                StoreStep::Insert(wrapper.handle(), (TabletTool { device })),
                final(compositor).tablet_tools@,
            ),
            final(compositor).state == old(compositor).state,
            final(compositor).keyboards == old(compositor).keyboards,
            final(compositor).xwayland_surfaces == old(compositor).xwayland_surfaces,
            wrapper.handler() == handler,
            wrapper.bindings() == seq![
                (NotificationKind::Axis, true),
                (NotificationKind::Proximity, true),
                (NotificationKind::Tip, true),
                (NotificationKind::Button, true),
                (NotificationKind::Destroyed, true),
            ],
    {
        let tool = compositor.tablet_tools.insert(TabletTool { device });
        let mut kinds: Vec<NotificationKind> = Vec::new();
        kinds.push(NotificationKind::Axis);
        kinds.push(NotificationKind::Proximity);
        kinds.push(NotificationKind::Tip);
        kinds.push(NotificationKind::Button);
        kinds.push(NotificationKind::Destroyed);
        let wrapper = TabletToolWrapper {
            wrapper: Wrapper::new(&kinds, TabletToolData { tool, handler }),
        };
        assert(wrapper.bindings() =~= seq![
            (NotificationKind::Axis, true),
            (NotificationKind::Proximity, true),
            (NotificationKind::Tip, true),
            (NotificationKind::Button, true),
            (NotificationKind::Destroyed, true),
        ]);
        wrapper
    }

    /// The input device of the tool, read through the tool itself: the
    /// error that access through its handle meets, where the tool is not
    /// present in the store.
    pub fn input_device<'a, S>(&self, compositor: &'a Compositor<S>) -> (result: Result<
        &'a InputDevice,
        HandleError,
    >)
        ensures
            (match result {
                Ok(device) => {
                    &&& compositor.tablet_tools.liveness(self.handle()) is Present
                    &&& *device == compositor.tablet_tools.liveness(self.handle())->Present_0.device
                },
                Err(error) => {
                    &&& !(compositor.tablet_tools.liveness(self.handle()) is Present)
                    &&& error == refusal(compositor.tablet_tools@, self.handle())
                },
            }),
    {
        match compositor.tablet_tools.get(self.wrapper.data().tool) {
            Ok(object) => Ok(&object.device),
            Err(error) => Err(error),
        }
    }

    /// A weak reference to the tool.
    pub fn tablet_tool(&mut self) -> (tool: TabletToolHandle)
        ensures
            tool == old(self).handle(),
            *final(self) == *old(self),
    {
        self.wrapper.data().tool
    }

    /// The entry point for an axis notification. If the application state is
    /// attached and at rest, the wrapper still listens to notifications of
    /// this kind and the tool is live, then `on_axis` of the handler is called
    /// once, with the compositor, the handle of the tool and the event, and
    /// what that call makes of the handler and the compositor is what is left
    /// behind. Otherwise nothing is called and nothing is changed.
    pub fn axis_notify<S>(&mut self, compositor: &mut Compositor<S>, event: &AxisEvent) -> (outcome:
        DispatchOutcome) where H: TabletToolHandler<S>
        ensures
            outcome == planned_outcome(
                old(compositor).state@,
                old(self).listens_to(NotificationKind::Axis),
                old(compositor).tablet_tools.live(old(self).handle()),
            ),
            (outcome != DispatchOutcome::Delivered ==> {
                &&& *final(self) == *old(self)
                &&& *final(compositor) == *old(compositor)
            }),
            (outcome == DispatchOutcome::Delivered ==> exists|
                handler: &mut H,
                context: &mut Compositor<S>,
            |
                {
                    &&& #[trigger] call_ensures(
                        H::on_axis,
                        (handler, context, old(self).handle(), event),
                        (),
                    )
                    &&& *handler == old(self).handler()
                    &&& *final(handler) == final(self).handler()
                    &&& *context == *old(compositor)
                    &&& *final(context) == *final(compositor)
                }),
            final(self).handle() == old(self).handle(),
            final(self).bindings() == old(self).bindings(),
    {
        let tool = self.wrapper.data().tool;
        let outcome = plan_object_dispatch(
            &compositor.state,
            &self.wrapper,
            NotificationKind::Axis,
            &compositor.tablet_tools,
            tool,
        );
        if let DispatchOutcome::Delivered = outcome {
            self.wrapper.data_mut().handler.on_axis(compositor, tool, event);
        }
        outcome
    }

    /// The entry point for a proximity notification. If the application state is
    /// attached and at rest, the wrapper still listens to notifications of
    /// this kind and the tool is live, then `on_proximity` of the handler is called
    /// once, with the compositor, the handle of the tool and the event, and
    /// what that call makes of the handler and the compositor is what is left
    /// behind. Otherwise nothing is called and nothing is changed.
    pub fn proximity_notify<S>(&mut self, compositor: &mut Compositor<S>, event: &ProximityEvent) -> (outcome:
        DispatchOutcome) where H: TabletToolHandler<S>
        ensures
            outcome == planned_outcome(
                old(compositor).state@,
                old(self).listens_to(NotificationKind::Proximity),
                old(compositor).tablet_tools.live(old(self).handle()),
            ),
            (outcome != DispatchOutcome::Delivered ==> {
                &&& *final(self) == *old(self)
                &&& *final(compositor) == *old(compositor)
            }),
            (outcome == DispatchOutcome::Delivered ==> exists|
                handler: &mut H,
                context: &mut Compositor<S>,
            |
                {
                    &&& #[trigger] call_ensures(
                        H::on_proximity,
                        (handler, context, old(self).handle(), event),
                        (),
                    )
                    &&& *handler == old(self).handler()
                    &&& *final(handler) == final(self).handler()
                    &&& *context == *old(compositor)
                    &&& *final(context) == *final(compositor)
                }),
            final(self).handle() == old(self).handle(),
            final(self).bindings() == old(self).bindings(),
    {
        let tool = self.wrapper.data().tool;
        let outcome = plan_object_dispatch(
            &compositor.state,
            &self.wrapper,
            NotificationKind::Proximity,
            &compositor.tablet_tools,
            tool,
        );
        if let DispatchOutcome::Delivered = outcome {
            self.wrapper.data_mut().handler.on_proximity(compositor, tool, event);
        }
        outcome
    }

    /// The entry point for a tip notification. If the application state is
    /// attached and at rest, the wrapper still listens to notifications of
    /// this kind and the tool is live, then `on_tip` of the handler is called
    /// once, with the compositor, the handle of the tool and the event, and
    /// what that call makes of the handler and the compositor is what is left
    /// behind. Otherwise nothing is called and nothing is changed.
    pub fn tip_notify<S>(&mut self, compositor: &mut Compositor<S>, event: &TipEvent) -> (outcome:
        DispatchOutcome) where H: TabletToolHandler<S>
        ensures
            outcome == planned_outcome(
                old(compositor).state@,
                old(self).listens_to(NotificationKind::Tip),
                old(compositor).tablet_tools.live(old(self).handle()),
            ),
            (outcome != DispatchOutcome::Delivered ==> {
                &&& *final(self) == *old(self)
                &&& *final(compositor) == *old(compositor)
            }),
            (outcome == DispatchOutcome::Delivered ==> exists|
                handler: &mut H,
                context: &mut Compositor<S>,
            |
                {
                    &&& #[trigger] call_ensures(
                        H::on_tip,
                        (handler, context, old(self).handle(), event),
                        (),
                    )
                    &&& *handler == old(self).handler()
                    &&& *final(handler) == final(self).handler()
                    &&& *context == *old(compositor)
                    &&& *final(context) == *final(compositor)
                }),
            final(self).handle() == old(self).handle(),
            final(self).bindings() == old(self).bindings(),
    {
        let tool = self.wrapper.data().tool;
        let outcome = plan_object_dispatch(
            &compositor.state,
            &self.wrapper,
            NotificationKind::Tip,
            &compositor.tablet_tools,
            tool,
        );
        if let DispatchOutcome::Delivered = outcome {
            self.wrapper.data_mut().handler.on_tip(compositor, tool, event);
        }
        outcome
    }

    /// The entry point for a button notification. If the application state is
    /// attached and at rest, the wrapper still listens to notifications of
    /// this kind and the tool is live, then `on_button` of the handler is called
    /// once, with the compositor, the handle of the tool and the event, and
    /// what that call makes of the handler and the compositor is what is left
    /// behind. Otherwise nothing is called and nothing is changed.
    pub fn button_notify<S>(&mut self, compositor: &mut Compositor<S>, event: &ButtonEvent) -> (outcome:
        DispatchOutcome) where H: TabletToolHandler<S>
        ensures
            outcome == planned_outcome(
                old(compositor).state@,
                old(self).listens_to(NotificationKind::Button),
                old(compositor).tablet_tools.live(old(self).handle()),
            ),
            (outcome != DispatchOutcome::Delivered ==> {
                &&& *final(self) == *old(self)
                &&& *final(compositor) == *old(compositor)
            }),
            (outcome == DispatchOutcome::Delivered ==> exists|
                handler: &mut H,
                context: &mut Compositor<S>,
            |
                {
                    &&& #[trigger] call_ensures(
                        H::on_button,
                        (handler, context, old(self).handle(), event),
                        (),
                    )
                    &&& *handler == old(self).handler()
                    &&& *final(handler) == final(self).handler()
                    &&& *context == *old(compositor)
                    &&& *final(context) == *final(compositor)
                }),
            final(self).handle() == old(self).handle(),
            final(self).bindings() == old(self).bindings(),
    {
        let tool = self.wrapper.data().tool;
        let outcome = plan_object_dispatch(
            &compositor.state,
            &self.wrapper,
            NotificationKind::Button,
            &compositor.tablet_tools,
            tool,
        );
        if let DispatchOutcome::Delivered = outcome {
            self.wrapper.data_mut().handler.on_button(compositor, tool, event);
        }
        outcome
    }

    /// The entry point for the notification that the tool is destroyed.
    /// If the notification is delivered, `destroyed` of the handler is called
    /// first, once, while the tool is still live. The native library has
    /// destroyed the tool whatever becomes of the notification on this side,
    /// so in every case the bindings of the wrapper are then released and the
    /// tool is invalidated, in the store that the handler left behind if it
    /// was called: from then on every handle to the tool reports that it is
    /// destroyed. A notification that is not delivered does nothing else. The
    /// kinds returned are those of the subscriptions to remove from the native
    /// source.
    pub fn destroy_notify<S>(&mut self, compositor: &mut Compositor<S>) -> (report: (
        DispatchOutcome,
        Vec<NotificationKind>,
    )) where H: TabletToolHandler<S>
        ensures
            report.0 == planned_outcome(
                old(compositor).state@,
                old(self).listens_to(NotificationKind::Destroyed),
                old(compositor).tablet_tools.live(old(self).handle()),
            ),
            report.1@ == bound_kinds(old(self).bindings()),
            final(self).bindings() == released(old(self).bindings()),
            final(self).handle() == old(self).handle(),
            !final(compositor).tablet_tools.live(old(self).handle()),
            (report.0 != DispatchOutcome::Delivered ==> {
                &&& final(self).handler() == old(self).handler()
                &&& final(compositor).state == old(compositor).state
                &&& final(compositor).keyboards == old(compositor).keyboards
                &&& final(compositor).xwayland_surfaces == old(compositor).xwayland_surfaces
                &&& final(compositor).tablet_tools@ == invalidated(
                    old(compositor).tablet_tools@,
                    old(self).handle(),
                )
            }),
            (report.0 == DispatchOutcome::Delivered ==> exists|
                handler: &mut H,
                context: &mut Compositor<S>,
            |
                {
                    &&& #[trigger] call_ensures(
                        H::destroyed,
                        (handler, context, old(self).handle()),
                        (),
                    )
                    &&& *handler == old(self).handler()
                    &&& *final(handler) == final(self).handler()
                    &&& *context == *old(compositor)
                    &&& final(compositor).state == final(context).state
                    &&& final(compositor).keyboards == final(context).keyboards
                    &&& final(compositor).xwayland_surfaces == final(context).xwayland_surfaces
                    &&& final(compositor).tablet_tools@ == invalidated(
                        final(context).tablet_tools@,
                        old(self).handle(),
                    )
                }),
    {
        let tool = self.wrapper.data().tool;
        let outcome = plan_object_dispatch(
            &compositor.state,
            &self.wrapper,
            NotificationKind::Destroyed,
            &compositor.tablet_tools,
            tool,
        );
        if let DispatchOutcome::Delivered = outcome {
            self.wrapper.data_mut().handler.destroyed(compositor, tool);
        }
        let removed = finish_destroy(&mut self.wrapper, &mut compositor.tablet_tools, tool);
        (outcome, removed)
    }

    /// Gives the tool up without a notification from the native library, as
    /// when the owner of the wrapper drops it: the bindings are released and
    /// the tool is invalidated, and no handler is called. The kinds returned
    /// are those of the subscriptions to remove from the native source. After
    /// a destroy notification there is nothing left to do, and none is
    /// returned.
    pub fn teardown<S>(&mut self, compositor: &mut Compositor<S>) -> (removed: Vec<
        NotificationKind,
    >)
        ensures
            removed@ == bound_kinds(old(self).bindings()),
            final(self).bindings() == released(old(self).bindings()),
            final(self).handle() == old(self).handle(),
            final(self).handler() == old(self).handler(),
            final(compositor).tablet_tools@ == invalidated(
                old(compositor).tablet_tools@,
                old(self).handle(),
            ),
            final(compositor).state == old(compositor).state,
            final(compositor).keyboards == old(compositor).keyboards,
            final(compositor).xwayland_surfaces == old(compositor).xwayland_surfaces,
    {
        let tool = self.wrapper.data().tool;
        finish_destroy(&mut self.wrapper, &mut compositor.tablet_tools, tool)
    }
}

} // verus!
