//! What a notification leads to.
//!
//! Every entry point decides in the same way whether the handler of the
//! application is called, before anything is changed. A notification that is
//! not delivered calls no handler and changes nothing, with one exception: a
//! destroy notification ends the life of its object on this side in every
//! case, because the native library has destroyed the object already.

use crate::handle::invalidated;
use crate::handle::Handle;
use crate::handle::ObjectStore;
use crate::listener::bound_kinds;
use crate::listener::lemma_released_is_silent;
use crate::listener::listening;
use crate::listener::released;
use crate::listener::NotificationKind;
use crate::listener::Wrapper;
use crate::state_slot::CompositorStateSlot;
use crate::state_slot::SlotState;
use vstd::prelude::*;

verus! {

/// How an entry point dealt with a notification.
#[derive(Clone, Copy, Debug, PartialEq, Eq, Structural)]
pub enum DispatchOutcome {
    /// The handler of the application was called.
    Delivered,
    /// No application state is attached yet, or the compositor is shutting
    /// down. Such a notification is dropped; this is an expected race.
    CompositorUnavailable,
    /// The application state is lent out: the notification arrived while
    /// another one was still being handled. No handler was called.
    AlreadyBorrowed,
    /// The object of the notification is gone, or the wrapper no longer
    /// listens to this kind of notification. No handler was called.
    AlreadyDestroyed,
}

/// The outcome of a notification, from the state of the slot, whether the
/// wrapper listens to notifications of its kind, and whether its object is
/// live. The state of the slot is asked first.
pub open spec fn planned_outcome<S>(slot: SlotState<S>, listening: bool, live: bool)
    -> DispatchOutcome {
    match slot {
        SlotState::Empty => DispatchOutcome::CompositorUnavailable,
        SlotState::Closed => DispatchOutcome::CompositorUnavailable,
        SlotState::Borrowed => DispatchOutcome::AlreadyBorrowed,
        SlotState::Attached(_) => if listening && live {
            DispatchOutcome::Delivered
        } else {
            DispatchOutcome::AlreadyDestroyed
        },
    }
}

/// Decides what becomes of a notification of `kind` for `object`, which
/// arrived at `wrapper`.
pub fn plan_object_dispatch<S, D, T>(
    slot: &CompositorStateSlot<S>,
    wrapper: &Wrapper<D>,
    kind: NotificationKind,
    store: &ObjectStore<T>,
    object: Handle<T>,
) -> (outcome: DispatchOutcome)
    ensures
        outcome == planned_outcome(slot@, wrapper.listens_to(kind), store.live(object)),
{
    if slot.is_borrowed() {
        DispatchOutcome::AlreadyBorrowed
    } else if !slot.is_available() {
        DispatchOutcome::CompositorUnavailable
    } else if wrapper.is_listening(kind) && store.is_live(object) {
        DispatchOutcome::Delivered
    } else {
        DispatchOutcome::AlreadyDestroyed
    }
}

/// Decides what becomes of a notification of `kind` that is about no object
/// of its own, such as those of a manager.
pub fn plan_manager_dispatch<S, D>(
    slot: &CompositorStateSlot<S>,
    wrapper: &Wrapper<D>,
    kind: NotificationKind,
) -> (outcome: DispatchOutcome)
    ensures
        outcome == planned_outcome(slot@, wrapper.listens_to(kind), true),
{
    if slot.is_borrowed() {
        DispatchOutcome::AlreadyBorrowed
    } else if !slot.is_available() {
        DispatchOutcome::CompositorUnavailable
    } else if wrapper.is_listening(kind) {
        DispatchOutcome::Delivered
    } else {
        DispatchOutcome::AlreadyDestroyed
    }
}

/// Ends the life of `object` on this side, after the handler has seen its
/// destruction: releases every binding of the wrapper and invalidates the
/// object, so that every handle to it reports that it is destroyed. Returns
/// the kinds of the subscriptions that have to be removed from the native
/// source.
pub fn finish_destroy<D, T>(wrapper: &mut Wrapper<D>, store: &mut ObjectStore<T>, object: Handle<T>)
    -> (removed: Vec<NotificationKind>)
    ensures
        removed@ == bound_kinds(old(wrapper)@.bindings),
        final(wrapper)@.bindings == released(old(wrapper)@.bindings),
        final(wrapper)@.data == old(wrapper)@.data,
        final(store)@ == invalidated(old(store)@, object),
        !final(store).live(object),
{
    let removed = wrapper.teardown();
    store.invalidate(object);
    removed
}

/// The destroy notification is the last one that reaches a handler. Once the
/// bindings of a wrapper are released, or its object is destroyed, no
/// notification of any kind is delivered, whatever the state of the slot.
pub proof fn lemma_nothing_is_delivered_after_destroy<S>(
    slot: SlotState<S>,
    bindings: Seq<(NotificationKind, bool)>,
    kind: NotificationKind,
    live: bool,
)
    ensures
        planned_outcome(slot, listening(released(bindings), kind), live)
            != DispatchOutcome::Delivered,
        planned_outcome(slot, listening(bindings, kind), false) != DispatchOutcome::Delivered,
{
    lemma_released_is_silent(bindings);
}

} // verus!
