//! Handler for keyboards.

use crate::compositor::Compositor;
use crate::dispatch::finish_destroy;
use crate::dispatch::plan_object_dispatch;
use crate::dispatch::planned_outcome;
use crate::dispatch::DispatchOutcome;
use crate::events::key_events::KeyEvent;
use crate::handle::invalidated;
use crate::handle::refusal;
use crate::handle::store_next;
use crate::handle::HandleError;
use crate::handle::StoreStep;
use crate::input::InputDevice;
use crate::input::Keyboard;
use crate::input::KeyboardHandle;
use crate::listener::bound_kinds;
use crate::listener::listening;
use crate::listener::released;
use crate::listener::NotificationKind;
use crate::listener::Wrapper;
use vstd::prelude::*;

verus! {

/// What an application does about the notifications of a keyboard. Every
/// method has a default that does nothing; an application overrides those it
/// cares about.
///
/// A callback is only ever made while the application state is attached and
/// at rest, and while the keyboard that it is about is live.
pub trait KeyboardHandler<S> {
    /// Callback that is triggered when a key changes its state.
    fn on_key(&mut self, compositor: &mut Compositor<S>, keyboard: KeyboardHandle, event: &KeyEvent)
        requires
            old(compositor).state@ is Attached,
            old(compositor).keyboards.live(keyboard),
        default_ensures
            &*final(self) == &*old(self),
            *final(compositor) == *old(compositor),
    {
    }

    /// Callback that is triggered when the keyboard is destroyed. It is the
    /// last callback for the keyboard, which is still live while it runs.
    fn destroyed(&mut self, compositor: &mut Compositor<S>, keyboard: KeyboardHandle)
        requires
            old(compositor).state@ is Attached,
            old(compositor).keyboards.live(keyboard),
        default_ensures
            &*final(self) == &*old(self),
            *final(compositor) == *old(compositor),
    {
    }
}

/// Calls `on_key` of `handler`, which may be a handler of any type, one
/// behind a trait object too.
fn call_on_key<S, H: KeyboardHandler<S> + ?Sized>(
    handler: &mut H,
    compositor: &mut Compositor<S>,
    keyboard: KeyboardHandle,
    event: &KeyEvent,
)
    requires
        old(compositor).state@ is Attached,
        old(compositor).keyboards.live(keyboard),
    ensures
        (exists|inner: &mut H, context: &mut Compositor<S>|
            {
                &&& #[trigger] call_ensures(H::on_key, (inner, context, keyboard, event), ())
                &&& &*inner == &*old(handler)
                &&& &*final(inner) == &*final(handler)
                &&& *context == *old(compositor)
                &&& *final(context) == *final(compositor)
            }),
{
    handler.on_key(compositor, keyboard, event)
}

/// Calls `destroyed` of `handler`, which may be a handler of any type, one
/// behind a trait object too.
fn call_destroyed<S, H: KeyboardHandler<S> + ?Sized>(
    handler: &mut H,
    compositor: &mut Compositor<S>,
    keyboard: KeyboardHandle,
)
    requires
        old(compositor).state@ is Attached,
        old(compositor).keyboards.live(keyboard),
    ensures
        (exists|inner: &mut H, context: &mut Compositor<S>|
            {
                &&& #[trigger] call_ensures(H::destroyed, (inner, context, keyboard), ())
                &&& &*inner == &*old(handler)
                &&& &*final(inner) == &*final(handler)
                &&& *context == *old(compositor)
                &&& *final(context) == *final(compositor)
            }),
{
    handler.destroyed(compositor, keyboard)
}

/// A boxed handler is a handler: a wrapper can hold a handler whose type is
/// chosen at run time. Each callback is handed on to the handler in the box,
/// once and with the same arguments, and what the call makes of that handler
/// and of the compositor is what is left behind.
impl<S, H: KeyboardHandler<S> + ?Sized> KeyboardHandler<S> for Box<H> {
    fn on_key(&mut self, compositor: &mut Compositor<S>, keyboard: KeyboardHandle, event: &KeyEvent)
        ensures
            (exists|inner: &mut H, context: &mut Compositor<S>|
                {
                    &&& #[trigger] call_ensures(H::on_key, (inner, context, keyboard, event), ())
                    &&& &*inner == &**old(self)
                    &&& &*final(inner) == &**final(self)
                    &&& *context == *old(compositor)
                    &&& *final(context) == *final(compositor)
                }),
    {
        call_on_key(&mut **self, compositor, keyboard, event)
    }

    fn destroyed(&mut self, compositor: &mut Compositor<S>, keyboard: KeyboardHandle)
        ensures
            (exists|inner: &mut H, context: &mut Compositor<S>|
                {
                    &&& #[trigger] call_ensures(H::destroyed, (inner, context, keyboard), ())
                    &&& &*inner == &**old(self)
                    &&& &*final(inner) == &**final(self)
                    &&& *context == *old(compositor)
                    &&& *final(context) == *final(compositor)
                }),
    {
        call_destroyed(&mut **self, compositor, keyboard)
    }
}

/// What a keyboard wrapper keeps for its entry points.
struct KeyboardData<H> {
    keyboard: KeyboardHandle,
    handler: H,
}

/// The owner of the listener bindings of one keyboard and of the handler that
/// the application gave for it.
pub struct KeyboardWrapper<H> {
    wrapper: Wrapper<KeyboardData<H>>,
}

impl<H> KeyboardWrapper<H> {
    /// The handle of the keyboard of this wrapper.
    pub closed spec fn handle(&self) -> KeyboardHandle {
        self.wrapper@.data.keyboard
    }

    /// The handler of this wrapper.
    pub closed spec fn handler(&self) -> H {
        self.wrapper@.data.handler
    }

    /// The bindings of this wrapper, each as its kind and whether it is bound.
    pub closed spec fn bindings(&self) -> Seq<(NotificationKind, bool)> {
        self.wrapper@.bindings
    }

    /// Whether this wrapper still listens to notifications of `kind`.
    pub open spec fn listens_to(&self, kind: NotificationKind) -> bool {
        listening(self.bindings(), kind)
    }

    /// Takes up a keyboard that the native library has announced: puts it
    /// into the keyboard store of the compositor and binds the entry points
    /// of the new wrapper, which calls `handler` from now on.
    pub fn new<S>(compositor: &mut Compositor<S>, device: InputDevice, handler: H) -> (wrapper:
        Self) where H: KeyboardHandler<S>
        ensures
            store_next(
                old(compositor).keyboards@,
                StoreStep::Insert(wrapper.handle(), (Keyboard { device })),
                final(compositor).keyboards@,
            ),
            final(compositor).state == old(compositor).state,
            final(compositor).tablet_tools == old(compositor).tablet_tools,
            final(compositor).xwayland_surfaces == old(compositor).xwayland_surfaces,
            wrapper.handler() == handler,
            wrapper.bindings() == seq![
                (NotificationKind::Key, true),
                (NotificationKind::Destroyed, true),
            ],
    {
        let keyboard = compositor.keyboards.insert(Keyboard { device });
        let mut kinds: Vec<NotificationKind> = Vec::new();
        kinds.push(NotificationKind::Key);
        kinds.push(NotificationKind::Destroyed);
        let wrapper = KeyboardWrapper {
            wrapper: Wrapper::new(&kinds, KeyboardData { keyboard, handler }),
        };
        assert(wrapper.bindings() =~= seq![
            (NotificationKind::Key, true),
            (NotificationKind::Destroyed, true),
        ]);
        wrapper
    }

    /// The input device of the keyboard, read through the keyboard itself: the
    /// error that access through its handle meets, where the keyboard is not
    /// present in the store.
    pub fn input_device<'a, S>(&self, compositor: &'a Compositor<S>) -> (result: Result<
        &'a InputDevice,
        HandleError,
    >)
        ensures
            (match result {
                Ok(device) => {
                    &&& compositor.keyboards.liveness(self.handle()) is Present
                    &&& *device == compositor.keyboards.liveness(self.handle())->Present_0.device
                },
                Err(error) => {
                    &&& !(compositor.keyboards.liveness(self.handle()) is Present)
                    &&& error == refusal(compositor.keyboards@, self.handle())
                },
            }),
    {
        match compositor.keyboards.get(self.wrapper.data().keyboard) {
            Ok(object) => Ok(&object.device),
            Err(error) => Err(error),
        }
    }

    /// A weak reference to the keyboard.
    pub fn keyboard(&self) -> (keyboard: KeyboardHandle)
        ensures
            keyboard == self.handle(),
    {
        self.wrapper.data().keyboard
    }

    /// The entry point for a key notification. If the application state is
    /// attached and at rest, the wrapper still listens to key notifications
    /// and the keyboard is live, then `on_key` of the handler is called once,
    /// with the compositor, the handle of the keyboard and the event, and what
    /// that call makes of the handler and the compositor is what is left
    /// behind. Otherwise nothing is called and nothing is changed.
    pub fn key_notify<S>(&mut self, compositor: &mut Compositor<S>, event: &KeyEvent) -> (outcome:
        DispatchOutcome) where H: KeyboardHandler<S>
        ensures
            outcome == planned_outcome(
                old(compositor).state@,
                old(self).listens_to(NotificationKind::Key),
                old(compositor).keyboards.live(old(self).handle()),
            ),
            (outcome != DispatchOutcome::Delivered ==> {
                &&& *final(self) == *old(self)
                &&& *final(compositor) == *old(compositor)
            }),
            (outcome == DispatchOutcome::Delivered ==> exists|
                handler: &mut H,
                context: &mut Compositor<S>,
            |
                {
                    &&& #[trigger] call_ensures(
                        H::on_key,
                        (handler, context, old(self).handle(), event),
                        (),
                    )
                    &&& *handler == old(self).handler()
                    &&& *final(handler) == final(self).handler()
                    &&& *context == *old(compositor)
                    &&& *final(context) == *final(compositor)
                }),
            final(self).handle() == old(self).handle(),
            final(self).bindings() == old(self).bindings(),
    {
        let keyboard = self.wrapper.data().keyboard;
        let outcome = plan_object_dispatch(
            &compositor.state,
            &self.wrapper,
            NotificationKind::Key,
            &compositor.keyboards,
            keyboard,
        );
        if let DispatchOutcome::Delivered = outcome {
            self.wrapper.data_mut().handler.on_key(compositor, keyboard, event);
        }
        outcome
    }

    /// The entry point for the notification that the keyboard is destroyed.
    /// If the notification is delivered, `destroyed` of the handler is called
    /// first, once, while the keyboard is still live. The native library has
    /// destroyed the keyboard whatever becomes of the notification on this side,
    /// so in every case the bindings of the wrapper are then released and the
    /// keyboard is invalidated, in the store that the handler left behind if it
    /// was called: from then on every handle to the keyboard reports that it is
    /// destroyed. A notification that is not delivered does nothing else. The
    /// kinds returned are those of the subscriptions to remove from the native
    /// source.
    pub fn destroy_notify<S>(&mut self, compositor: &mut Compositor<S>) -> (report: (
        DispatchOutcome,
        Vec<NotificationKind>,
    )) where H: KeyboardHandler<S>
        ensures
            report.0 == planned_outcome(
                old(compositor).state@,
                old(self).listens_to(NotificationKind::Destroyed),
                old(compositor).keyboards.live(old(self).handle()),
            ),
            report.1@ == bound_kinds(old(self).bindings()),
            final(self).bindings() == released(old(self).bindings()),
            final(self).handle() == old(self).handle(),
            !final(compositor).keyboards.live(old(self).handle()),
            (report.0 != DispatchOutcome::Delivered ==> {
                &&& final(self).handler() == old(self).handler()
                &&& final(compositor).state == old(compositor).state
                &&& final(compositor).tablet_tools == old(compositor).tablet_tools
                &&& final(compositor).xwayland_surfaces == old(compositor).xwayland_surfaces
                &&& final(compositor).keyboards@ == invalidated(
                    old(compositor).keyboards@,
                    old(self).handle(),
                )
            }),
            (report.0 == DispatchOutcome::Delivered ==> exists|
                handler: &mut H,
                context: &mut Compositor<S>,
            |
                {
                    &&& #[trigger] call_ensures(
                        H::destroyed,
                        (handler, context, old(self).handle()),
                        (),
                    )
                    &&& *handler == old(self).handler()
                    &&& *final(handler) == final(self).handler()
                    &&& *context == *old(compositor)
                    &&& final(compositor).state == final(context).state
                    &&& final(compositor).tablet_tools == final(context).tablet_tools
                    &&& final(compositor).xwayland_surfaces == final(context).xwayland_surfaces
                    &&& final(compositor).keyboards@ == invalidated(
                        final(context).keyboards@,
                        old(self).handle(),
                    )
                }),
    {
        let keyboard = self.wrapper.data().keyboard;
        let outcome = plan_object_dispatch(
            &compositor.state,
            &self.wrapper,
            NotificationKind::Destroyed,
            &compositor.keyboards,
            keyboard,
        );
        if let DispatchOutcome::Delivered = outcome {
            self.wrapper.data_mut().handler.destroyed(compositor, keyboard);
        }
        let removed = finish_destroy(&mut self.wrapper, &mut compositor.keyboards, keyboard);
        (outcome, removed)
    }

    /// Gives the keyboard up without a notification from the native library, as
    /// when the owner of the wrapper drops it: the bindings are released and
    /// the keyboard is invalidated, and no handler is called. The kinds returned
    /// are those of the subscriptions to remove from the native source. After
    /// a destroy notification there is nothing left to do, and none is
    /// returned.
    pub fn teardown<S>(&mut self, compositor: &mut Compositor<S>) -> (removed: Vec<
        NotificationKind,
    >)
        ensures
            removed@ == bound_kinds(old(self).bindings()),
            final(self).bindings() == released(old(self).bindings()),
            final(self).handle() == old(self).handle(),
            final(self).handler() == old(self).handler(),
            final(compositor).keyboards@ == invalidated(
                old(compositor).keyboards@,
                old(self).handle(),
            ),
            final(compositor).state == old(compositor).state,
            final(compositor).tablet_tools == old(compositor).tablet_tools,
            final(compositor).xwayland_surfaces == old(compositor).xwayland_surfaces,
    {
        let keyboard = self.wrapper.data().keyboard;
        finish_destroy(&mut self.wrapper, &mut compositor.keyboards, keyboard)
    }
}

} // verus!
