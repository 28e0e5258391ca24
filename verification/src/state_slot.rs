//! The one slot of application state that a compositor carries.
//!
//! The application attaches its state once, at startup. Every callback can
//! then reach it through the slot, which keeps to a single writer at a time:
//! while the state is lent out under a [`StateGuard`], every further attempt
//! to reach it is refused instead of aliasing it.

use vstd::prelude::*;

verus! {

/// What a slot holds at one moment. This is also the view of a
/// [`CompositorStateSlot`].
pub enum SlotState<S> {
    /// Nothing was attached yet.
    Empty,
    /// The state is attached and at rest in the slot.
    Attached(S),
    /// The state is attached and lent out under a guard.
    Borrowed,
    /// The compositor is shutting down or gone; the slot gives nothing out.
    Closed,
}

/// The slot of application state of one compositor.
pub struct CompositorStateSlot<S> {
    state: SlotState<S>,
}

/// The state of a slot while it is lent out. The slot takes the state back
/// with [`CompositorStateSlot::release`]; until then it refuses everybody
/// else.
pub struct StateGuard<S> {
    payload: S,
}

impl<S> View for CompositorStateSlot<S> {
    type V = SlotState<S>;

    closed spec fn view(&self) -> SlotState<S> {
        self.state
    }
}

impl<S> View for StateGuard<S> {
    type V = S;

    closed spec fn view(&self) -> S {
        self.payload
    }
}

/// What attaching `payload` makes of a slot in state `pre`, and what the
/// caller gets: the payload back, if the slot does not take it.
pub open spec fn attach_model<S>(pre: SlotState<S>, payload: S) -> (SlotState<S>, Result<(), S>) {
    match pre {
        SlotState::Empty => (SlotState::Attached(payload), Ok(())),
        _ => (pre, Err(payload)),
    }
}

/// What lending the state out makes of a slot in state `pre`, and the state
/// that is lent, if any.
pub open spec fn borrow_model<S>(pre: SlotState<S>) -> (SlotState<S>, Option<S>) {
    match pre {
        SlotState::Attached(payload) => (SlotState::Borrowed, Some(payload)),
        _ => (pre, None),
    }
}

/// What bringing `payload` back makes of a slot in state `pre`, and what the
/// caller gets: the payload back, if the slot has nothing lent out.
pub open spec fn release_model<S>(pre: SlotState<S>, payload: S) -> (SlotState<S>, Result<(), S>) {
    match pre {
        SlotState::Borrowed => (SlotState::Attached(payload), Ok(())),
        _ => (pre, Err(payload)),
    }
}

impl<S> CompositorStateSlot<S> {
    /// The slot of a compositor that is starting up: nothing is attached.
    pub fn new() -> (slot: Self)
        ensures
            slot@ is Empty,
    {
        CompositorStateSlot { state: SlotState::Empty }
    }

    /// Attaches the application state. This succeeds once in the life of a
    /// slot; a slot that has taken a payload before, or is closed, stays as it
    /// is and hands the new payload back.
    pub fn attach(&mut self, payload: S) -> (result: Result<(), S>)
        ensures
            (final(self)@, result) == attach_model(old(self)@, payload),
    {
        match self.state {
            SlotState::Empty => {
                self.state = SlotState::Attached(payload);
                Ok(())
            },
            _ => Err(payload),
        }
    }

    /// Whether the state is attached and at rest, so that it can be reached.
    pub fn is_available(&self) -> (available: bool)
        ensures
            available == (self@ is Attached),
    {
        match self.state {
            SlotState::Attached(_) => true,
            _ => false,
        }
    }

    /// Whether the state is lent out at the moment.
    pub fn is_borrowed(&self) -> (borrowed: bool)
        ensures
            borrowed == (self@ is Borrowed),
    {
        match self.state {
            SlotState::Borrowed => true,
            _ => false,
        }
    }

    /// Shared access to the state, where it is attached and at rest.
    pub fn get(&self) -> (payload: Option<&S>)
        ensures
            (match payload {
                Some(payload) => self@ == SlotState::Attached(*payload),
                None => !(self@ is Attached),
            }),
    {
        match &self.state {
            SlotState::Attached(payload) => Some(payload),
            _ => None,
        }
    }

    /// Access to the state for writing. There is none while nothing is
    /// attached, while the state is lent out, and once the slot is closed.
    pub fn get_mut(&mut self) -> (payload: Option<&mut S>)
        ensures
            (match payload {
                Some(payload) => {
                    &&& old(self)@ == SlotState::Attached(*payload)
                    &&& final(self)@ == SlotState::Attached(*final(payload))
                },
                None => !(old(self)@ is Attached) && final(self)@ == old(self)@,
            }),
    {
        match &mut self.state {
            SlotState::Attached(payload) => Some(payload),
            _ => None,
        }
    }

    /// Lends the state out. Until the guard comes back through
    /// [`CompositorStateSlot::release`], the slot gives the state to nobody
    /// else.
    pub fn try_borrow(&mut self) -> (guard: Option<StateGuard<S>>)
        ensures
            final(self)@ == borrow_model(old(self)@).0,
            (match guard {
                Some(guard) => borrow_model(old(self)@).1 == Some(guard@),
                None => borrow_model(old(self)@).1 is None,
            }),
    {
        let mut state = SlotState::Borrowed;
        core::mem::swap(&mut state, &mut self.state);
        match state {
            SlotState::Attached(payload) => Some(StateGuard { payload }),
            other => {
                self.state = other;
                None
            },
        }
    }

    /// Takes back the state that was lent out. A slot that has nothing lent
    /// out stays as it is and hands the guard back.
    pub fn release(&mut self, guard: StateGuard<S>) -> (result: Result<(), StateGuard<S>>)
        ensures
            final(self)@ == release_model(old(self)@, guard@).0,
            (match result {
                Ok(()) => release_model(old(self)@, guard@).1 is Ok,
                Err(returned) => release_model(old(self)@, guard@).1 is Err && returned == guard,
            }),
    {
        match self.state {
            SlotState::Borrowed => {
                self.state = SlotState::Attached(guard.payload);
                Ok(())
            },
            _ => Err(guard),
        }
    }

    /// Closes the slot when the compositor begins to shut down, and hands out
    /// the state if it was at rest in the slot. From now on the slot gives
    /// nothing out and takes nothing in.
    pub fn close(&mut self) -> (payload: Option<S>)
        ensures
            final(self)@ is Closed,
            payload == borrow_model(old(self)@).1,
    {
        let mut state = SlotState::Closed;
        core::mem::swap(&mut state, &mut self.state);
        match state {
            SlotState::Attached(payload) => Some(payload),
            _ => None,
        }
    }
}

impl<S> StateGuard<S> {
    /// The state under the guard.
    pub fn payload(&self) -> (payload: &S)
        ensures
            *payload == self@,
    {
        &self.payload
    }

    /// The state under the guard, for writing.
    pub fn payload_mut(&mut self) -> (payload: &mut S)
        ensures
            *payload == old(self)@,
            final(self)@ == *final(payload),
    {
        &mut self.payload
    }
}

/// Of two attachments in a row the second always fails and changes nothing:
/// the slot hands the second payload back. Where the slot was empty, the first
/// succeeds and its payload is what the slot holds after both.
pub proof fn lemma_second_attach_fails<S>(pre: SlotState<S>, first: S, second: S)
    ensures
        ({
            let (mid, first_result) = attach_model(pre, first);
            let (post, second_result) = attach_model(mid, second);
            &&& second_result == Err::<(), S>(second)
            &&& post == mid
            &&& pre is Empty ==> first_result is Ok && post == SlotState::Attached(first)
        }),
{
}

/// While the state is lent out, a further attempt to borrow it finds nothing
/// and leaves the slot as it is, the slot is not in the state in which
/// [`CompositorStateSlot::get_mut`] gives access, and an attachment is turned
/// away: the slot stays as it is until the guard comes back or the slot is
/// closed.
pub proof fn lemma_nested_borrow_fails<S>(pre: SlotState<S>, other: S)
    requires
        borrow_model(pre).1 is Some,
    ensures
        ({
            let lent = borrow_model(pre).0;
            &&& lent is Borrowed
            &&& !(lent is Attached)
            &&& borrow_model(lent) == (lent, None::<S>)
            &&& attach_model(lent, other) == (lent, Err::<(), S>(other))
        }),
{
}

/// Lending the state out and taking it back unchanged leaves the slot as it
/// was, and the state can be lent out again.
pub proof fn lemma_release_restores<S>(pre: SlotState<S>)
    requires
        borrow_model(pre).1 is Some,
    ensures
        ({
            let (lent, payload) = borrow_model(pre);
            &&& release_model(lent, payload->Some_0) == (pre, Ok::<(), S>(()))
        }),
{
}

} // verus!
