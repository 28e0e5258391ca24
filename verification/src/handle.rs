//! Weak, runtime-checked handles to objects whose lifetime somebody else ends.
//!
//! An [`ObjectStore`] keeps the objects of one kind. Each object sits in a slot
//! that carries a generation counter; a [`Handle`] names a slot together with
//! the generation it was issued for. A handle never keeps its object alive:
//! once the object is destroyed the handle reports
//! [`HandleError::AlreadyDestroyed`], and it keeps doing so however the store
//! is used afterwards, because a slot is only ever reused under a larger
//! generation.

use core::marker::PhantomData;
use vstd::prelude::*;
use vstd::std_specs::cmp::PartialEqSpecImpl;

verus! {

/// Why a handle could not give access to its object.
#[derive(Clone, Copy, Debug, PartialEq, Eq, Structural)]
pub enum HandleError {
    /// The object no longer exists.
    AlreadyDestroyed,
    /// The object is handed out already; access would alias it.
    AlreadyBorrowed,
}

/// A weak reference to an object of type `T` in an [`ObjectStore`] of such
/// objects.
///
/// Handles are plain values: copying one yields another weak reference to the
/// same object, and dropping one has no effect on the object or on other
/// handles. A handle is meaningful only together with the store that issued
/// it; its type keeps it from being used on a store of another kind of object.
#[derive(Debug)]
pub struct Handle<T> {
    index: usize,
    generation: u64,
    object: PhantomData<T>,
}

impl<T> Clone for Handle<T> {
    /// A copy of the handle: another weak reference to the same object.
    fn clone(&self) -> (copy: Self)
        ensures
            copy == *self,
    {
        Handle { index: self.index, generation: self.generation, object: PhantomData }
    }
}

impl<T> Copy for Handle<T> {
}

impl<T> PartialEq for Handle<T> {
    /// Whether the two handles refer to the same object.
    fn eq(&self, other: &Self) -> (equal: bool) {
        self.index == other.index && self.generation == other.generation
    }
}

impl<T> PartialEqSpecImpl for Handle<T> {
    open spec fn obeys_eq_spec() -> bool {
        true
    }

    open spec fn eq_spec(&self, other: &Self) -> bool {
        *self == *other
    }
}

impl<T> Eq for Handle<T> {
}

/// What a store knows of a handle that it has issued.
pub enum Liveness<T> {
    /// The object has been destroyed.
    Destroyed,
    /// The object is alive and in the store.
    Present(T),
    /// The object is alive and handed out by [`ObjectStore::checkout`].
    Borrowed,
}

enum Entry<T> {
    Vacant,
    Present(T),
    Borrowed,
}

struct Slot<T> {
    generation: u64,
    entry: Entry<T>,
}

/// The objects of one kind, each reachable through the [`Handle`] issued for it.
///
/// The view of a store maps every handle the store has issued so far to the
/// [`Liveness`] of its object.
pub struct ObjectStore<T> {
    slots: Vec<Slot<T>>,
}

impl<T> Slot<T> {
    /// The liveness this slot gives to a handle of the given generation.
    spec fn liveness(self, generation: u64) -> Liveness<T> {
        if generation == self.generation {
            match self.entry {
                Entry::Vacant => Liveness::Destroyed,
                Entry::Present(object) => Liveness::Present(object),
                Entry::Borrowed => Liveness::Borrowed,
            }
        } else {
            Liveness::Destroyed
        }
    }

    /// A slot can take a new object if it is empty and has a generation left.
    spec fn reusable(self) -> bool {
        self.entry is Vacant && self.generation < u64::MAX
    }
}

impl<T> View for ObjectStore<T> {
    type V = Map<Handle<T>, Liveness<T>>;

    closed spec fn view(&self) -> Map<Handle<T>, Liveness<T>> {
        Map::new(
            |h: Handle<T>|
                h.index < self.slots@.len() && h.generation <= self.slots@[h.index as int].generation,
            |h: Handle<T>| self.slots@[h.index as int].liveness(h.generation),
        )
    }
}

/// The liveness of `handle` in a store with view `store`. A handle that the
/// store never issued counts as destroyed.
pub open spec fn liveness_of<T>(store: Map<Handle<T>, Liveness<T>>, handle: Handle<T>) -> Liveness<T> {
    if store.contains_key(handle) {
        store[handle]
    } else {
        Liveness::Destroyed
    }
}

/// The error that access through `handle` meets when its object is not present.
pub open spec fn refusal<T>(store: Map<Handle<T>, Liveness<T>>, handle: Handle<T>) -> HandleError {
    if liveness_of(store, handle) is Borrowed {
        HandleError::AlreadyBorrowed
    } else {
        HandleError::AlreadyDestroyed
    }
}

/// The store view `store` after the object of `handle` was destroyed, if it
/// was live.
pub open spec fn invalidated<T>(store: Map<Handle<T>, Liveness<T>>, handle: Handle<T>) -> Map<
    Handle<T>,
    Liveness<T>,
> {
    if liveness_of(store, handle) is Destroyed {
        store
    } else {
        store.insert(handle, Liveness::Destroyed)
    }
}

/// One change of a store, as its view sees it.
pub enum StoreStep<T> {
    /// A new object enters the store under a handle not issued before.
    Insert(Handle<T>, T),
    /// The present object of the handle is handed out.
    Checkout(Handle<T>),
    /// The handed-out object of the handle comes back, holding the given value.
    Checkin(Handle<T>, T),
    /// The present object of the handle is accessed in place and left holding
    /// the given value.
    Access(Handle<T>, T),
    /// The live object of the handle is destroyed.
    Invalidate(Handle<T>),
}

/// Whether `step` leads from the store view `pre` to the store view `post`.
pub open spec fn store_next<T>(
    pre: Map<Handle<T>, Liveness<T>>,
    step: StoreStep<T>,
    post: Map<Handle<T>, Liveness<T>>,
) -> bool {
    match step {
        StoreStep::Insert(handle, object) => {
            &&& !pre.contains_key(handle)
            &&& post == pre.insert(handle, Liveness::Present(object))
        },
        StoreStep::Checkout(handle) => {
            &&& liveness_of(pre, handle) is Present
            &&& post == pre.insert(handle, Liveness::Borrowed)
        },
        StoreStep::Checkin(handle, object) => {
            &&& liveness_of(pre, handle) is Borrowed
            &&& post == pre.insert(handle, Liveness::Present(object))
        },
        StoreStep::Access(handle, object) => {
            &&& liveness_of(pre, handle) is Present
            &&& post == pre.insert(handle, Liveness::Present(object))
        },
        StoreStep::Invalidate(handle) => {
            &&& !(liveness_of(pre, handle) is Destroyed)
            &&& post == pre.insert(handle, Liveness::Destroyed)
        },
    }
}

impl<T> ObjectStore<T> {
    /// The liveness of `handle` in this store.
    pub open spec fn liveness(&self, handle: Handle<T>) -> Liveness<T> {
        liveness_of(self@, handle)
    }

    /// Whether the object of `handle` exists, in the store or handed out.
    pub open spec fn live(&self, handle: Handle<T>) -> bool {
        !(self.liveness(handle) is Destroyed)
    }

    /// A store that has issued no handle yet.
    pub fn new() -> (store: Self)
        ensures
            store@ == Map::<Handle<T>, Liveness<T>>::empty(),
    {
        let store = ObjectStore { slots: Vec::new() };
        assert(store@ =~= Map::<Handle<T>, Liveness<T>>::empty());
        store
    }

    /// The first slot that can take a new object, if there is one.
    fn find_reusable(&self) -> (found: Option<usize>)
        ensures
            (match found {
                Some(i) => i < self.slots@.len() && self.slots@[i as int].reusable(),
                None => forall|j: int| 0 <= j < self.slots@.len() ==> !self.slots@[j].reusable(),
            }),
    {
        let mut i: usize = 0;
        while i < self.slots.len()
            invariant
                i <= self.slots@.len(),
                forall|j: int| 0 <= j < i ==> !self.slots@[j].reusable(),
            decreases self.slots@.len() - i,
        {
            let slot = &self.slots[i];
            if slot.generation < u64::MAX {
                if let Entry::Vacant = slot.entry {
                    return Some(i);
                }
            }
            i += 1;
        }
        None
    }

    /// Puts `object` into the store and issues the handle for it. The handle
    /// was never issued before, so no handle that exists already can reach the
    /// new object, and every handle issued earlier keeps its liveness.
    pub fn insert(&mut self, object: T) -> (handle: Handle<T>)
        ensures
            store_next(old(self)@, StoreStep::Insert(handle, object), final(self)@),
    {
        let handle = match self.find_reusable() {
            Some(index) => {
                let generation: u64 = self.slots[index].generation + 1;
                self.slots[index] = Slot { generation, entry: Entry::Present(object) };
                Handle { index, generation, object: PhantomData }
            },
            None => {
                let index: usize = self.slots.len();
                self.slots.push(Slot { generation: 0, entry: Entry::Present(object) });
                Handle { index, generation: 0, object: PhantomData }
            },
        };
        assert(self@ =~= old(self)@.insert(handle, Liveness::Present(object)));
        handle
    }

    /// Whether the object of `handle` still exists.
    pub fn is_live(&self, handle: Handle<T>) -> (live: bool)
        ensures
            live == self.live(handle),
    {
        if handle.index < self.slots.len() {
            let slot = &self.slots[handle.index];
            if slot.generation == handle.generation {
                match slot.entry {
                    Entry::Vacant => false,
                    _ => true,
                }
            } else {
                false
            }
        } else {
            false
        }
    }

    /// Whether the object of `handle` is handed out at the moment.
    pub fn is_borrowed(&self, handle: Handle<T>) -> (borrowed: bool)
        ensures
            borrowed == (self.liveness(handle) is Borrowed),
    {
        if handle.index < self.slots.len() {
            let slot = &self.slots[handle.index];
            if slot.generation == handle.generation {
                match slot.entry {
                    Entry::Borrowed => true,
                    _ => false,
                }
            } else {
                false
            }
        } else {
            false
        }
    }

    /// Shared access to the object of `handle`: the error that
    /// [`Handle::run`] would give where the object is not present.
    pub fn get(&self, handle: Handle<T>) -> (result: Result<&T, HandleError>)
        ensures
            (match result {
                Ok(object) => self.liveness(handle) == Liveness::Present(*object),
                Err(error) => !(self.liveness(handle) is Present) && error == refusal(
                    self@,
                    handle,
                ),
            }),
    {
        if handle.index < self.slots.len() {
            let slot = &self.slots[handle.index];
            if slot.generation == handle.generation {
                match &slot.entry {
                    Entry::Present(object) => Ok(object),
                    Entry::Borrowed => Err(HandleError::AlreadyBorrowed),
                    Entry::Vacant => Err(HandleError::AlreadyDestroyed),
                }
            } else {
                Err(HandleError::AlreadyDestroyed)
            }
        } else {
            Err(HandleError::AlreadyDestroyed)
        }
    }

    /// Hands the object of `handle` out. Until [`ObjectStore::checkin`] brings
    /// it back, every access through the handle meets
    /// [`HandleError::AlreadyBorrowed`].
    pub fn checkout(&mut self, handle: Handle<T>) -> (result: Result<T, HandleError>)
        ensures
            (match result {
                Ok(object) => {
                    &&& old(self).liveness(handle) == Liveness::Present(object)
                    &&& store_next(old(self)@, StoreStep::Checkout(handle), final(self)@)
                },
                Err(error) => {
                    &&& !(old(self).liveness(handle) is Present)
                    &&& error == refusal(old(self)@, handle)
                    &&& final(self)@ == old(self)@
                },
            }),
    {
        if handle.index < self.slots.len() {
            if self.slots[handle.index].generation == handle.generation {
                let mut entry = Entry::Borrowed;
                core::mem::swap(&mut entry, &mut self.slots[handle.index].entry);
                match entry {
                    Entry::Present(object) => {
                        assert(self@ =~= old(self)@.insert(handle, Liveness::Borrowed));
                        Ok(object)
                    },
                    Entry::Borrowed => Err(HandleError::AlreadyBorrowed),
                    Entry::Vacant => {
                        self.slots[handle.index].entry = Entry::Vacant;
                        assert(self@ =~= old(self)@);
                        Err(HandleError::AlreadyDestroyed)
                    },
                }
            } else {
                Err(HandleError::AlreadyDestroyed)
            }
        } else {
            Err(HandleError::AlreadyDestroyed)
        }
    }

    /// Brings back the object that [`ObjectStore::checkout`] handed out for
    /// `handle`. Where the handle has nothing handed out, the store stays as it
    /// is and the object is given back with the reason: the object of the
    /// handle was destroyed in the meantime, or it is in the store already.
    pub fn checkin(&mut self, handle: Handle<T>, object: T) -> (result: Result<(), (HandleError, T)>)
        ensures
            (match result {
                Ok(()) => store_next(
                    old(self)@,
                    StoreStep::Checkin(handle, object),
                    final(self)@,
                ),
                Err((error, returned)) => {
                    &&& returned == object
                    &&& final(self)@ == old(self)@
                    &&& match old(self).liveness(handle) {
                        Liveness::Destroyed => error == HandleError::AlreadyDestroyed,
                        Liveness::Present(_) => error == HandleError::AlreadyBorrowed,
                        Liveness::Borrowed => false,
                    }
                },
            }),
    {
        if handle.index < self.slots.len() {
            if self.slots[handle.index].generation == handle.generation {
                match self.slots[handle.index].entry {
                    Entry::Borrowed => {
                        self.slots[handle.index].entry = Entry::Present(object);
                        assert(self@ =~= old(self)@.insert(handle, Liveness::Present(object)));
                        Ok(())
                    },
                    Entry::Present(_) => Err((HandleError::AlreadyBorrowed, object)),
                    Entry::Vacant => Err((HandleError::AlreadyDestroyed, object)),
                }
            } else {
                Err((HandleError::AlreadyDestroyed, object))
            }
        } else {
            Err((HandleError::AlreadyDestroyed, object))
        }
    }

    /// Ends the life of the object of `handle`, whether it is in the store or
    /// handed out: from now on every handle to it reports
    /// [`HandleError::AlreadyDestroyed`]. Says whether there was a live object.
    pub fn invalidate(&mut self, handle: Handle<T>) -> (was_live: bool)
        ensures
            was_live == old(self).live(handle),
            final(self)@ == invalidated(old(self)@, handle),
            was_live ==> store_next(old(self)@, StoreStep::Invalidate(handle), final(self)@),
            !final(self).live(handle),
    {
        if self.is_live(handle) {
            self.slots[handle.index].entry = Entry::Vacant;
            assert(self@ =~= old(self)@.insert(handle, Liveness::Destroyed));
            true
        } else {
            false
        }
    }
}

impl<T> Handle<T> {
    /// Runs `f` on the object of this handle, which the closure may change, and
    /// returns what `f` returned. The reference that `f` gets lives for the call
    /// only. Where the object is not present, `f` is not called, the store is
    /// left as it was, and the error says why: the object was destroyed, or it
    /// is handed out.
    pub fn run<R, F: FnOnce(&mut T) -> R>(&self, store: &mut ObjectStore<T>, f: F) -> (result:
        Result<R, HandleError>)
        requires
            forall|object: &mut T|
                old(store).liveness(*self) == Liveness::Present(*object) ==> f.requires((object,)),
        ensures
            result is Ok <==> old(store).liveness(*self) is Present,
            (result is Ok ==> exists|object: &mut T, returned: R|
                {
                    &&& #[trigger] f.ensures((object,), returned)
                    &&& result == Ok::<R, HandleError>(returned)
                    &&& old(store).liveness(*self) == Liveness::Present(*object)
                    &&& store_next(
                        old(store)@,
                        StoreStep::Access(*self, *final(object)),
                        final(store)@,
                    )
                }),
            (result is Err ==> {
                &&& result == Err::<R, HandleError>(refusal(old(store)@, *self))
                &&& final(store)@ == old(store)@
            }),
    {
        if self.index < store.slots.len() {
            if store.slots[self.index].generation == self.generation {
                match &mut store.slots[self.index].entry {
                    Entry::Present(object) => {
                        let returned = f(object);
                        proof {
                            assert(final(store)@ =~= old(store)@.insert(
                                *self,
                                Liveness::Present(*object),
                            ));
                        }
                        Ok(returned)
                    },
                    Entry::Borrowed => Err(HandleError::AlreadyBorrowed),
                    Entry::Vacant => Err(HandleError::AlreadyDestroyed),
                }
            } else {
                Err(HandleError::AlreadyDestroyed)
            }
        } else {
            Err(HandleError::AlreadyDestroyed)
        }
    }
}

/// Whether `states` is a history of a store in which `steps[i]` leads from
/// `states[i]` to `states[i + 1]`.
pub open spec fn store_history<T>(
    states: Seq<Map<Handle<T>, Liveness<T>>>,
    steps: Seq<StoreStep<T>>,
) -> bool {
    &&& states.len() == steps.len() + 1
    &&& forall|i: int|
        0 <= i < steps.len() ==> #[trigger] store_next(states[i], steps[i], states[i + 1])
}

/// The handle that a step is about.
pub open spec fn step_handle<T>(step: StoreStep<T>) -> Handle<T> {
    match step {
        StoreStep::Insert(handle, _) => handle,
        StoreStep::Checkout(handle) => handle,
        StoreStep::Checkin(handle, _) => handle,
        StoreStep::Access(handle, _) => handle,
        StoreStep::Invalidate(handle) => handle,
    }
}

/// A step changes nothing but the liveness of the handle it is about, and no
/// step takes a handle back: what was issued stays issued.
pub proof fn lemma_step_frame<T>(
    pre: Map<Handle<T>, Liveness<T>>,
    step: StoreStep<T>,
    post: Map<Handle<T>, Liveness<T>>,
    handle: Handle<T>,
)
    requires
        store_next(pre, step, post),
    ensures
        pre.contains_key(handle) ==> post.contains_key(handle),
        handle != step_handle(step) ==> liveness_of(post, handle) == liveness_of(pre, handle),
        handle != step_handle(step) ==> (post.contains_key(handle) <==> pre.contains_key(handle)),
{
}

/// An object lives until it is destroyed: the one step that ends the life of
/// the object of a handle is the invalidation of that handle.
pub proof fn lemma_live_until_invalidated<T>(
    pre: Map<Handle<T>, Liveness<T>>,
    step: StoreStep<T>,
    post: Map<Handle<T>, Liveness<T>>,
    handle: Handle<T>,
)
    requires
        store_next(pre, step, post),
        !(liveness_of(pre, handle) is Destroyed),
        step != StoreStep::<T>::Invalidate(handle),
    ensures
        !(liveness_of(post, handle) is Destroyed),
{
}

/// No step brings a destroyed object back: a handle that the store has issued
/// and whose object is destroyed is destroyed after the step as well.
pub proof fn lemma_destroyed_stays_destroyed<T>(
    pre: Map<Handle<T>, Liveness<T>>,
    step: StoreStep<T>,
    post: Map<Handle<T>, Liveness<T>>,
    handle: Handle<T>,
)
    requires
        store_next(pre, step, post),
        pre.contains_key(handle),
        pre[handle] is Destroyed,
    ensures
        post.contains_key(handle),
        post[handle] is Destroyed,
{
}

/// Destruction is final. Once the object of an issued handle is destroyed at
/// some point of a store's history, access through the handle is refused with
/// [`HandleError::AlreadyDestroyed`] at every later point, whatever was done
/// to the store in between.
pub proof fn lemma_destroyed_forever<T>(
    states: Seq<Map<Handle<T>, Liveness<T>>>,
    steps: Seq<StoreStep<T>>,
    handle: Handle<T>,
    from: int,
    to: int,
)
    requires
        store_history(states, steps),
        0 <= from <= to < states.len(),
        states[from].contains_key(handle),
        states[from][handle] is Destroyed,
    ensures
        states[to].contains_key(handle),
        states[to][handle] is Destroyed,
        refusal(states[to], handle) == HandleError::AlreadyDestroyed,
    decreases to - from,
{
    if from < to {
        lemma_destroyed_forever(states, steps, handle, from, to - 1);
        assert(store_next(states[to - 1], steps[to - 1], states[to - 1 + 1]));
        lemma_destroyed_stays_destroyed(states[to - 1], steps[to - 1], states[to], handle);
    }
}

/// As long as no step of a history invalidates a handle, an object that is
/// live at one point is live at every later point.
pub proof fn lemma_live_while_not_invalidated<T>(
    states: Seq<Map<Handle<T>, Liveness<T>>>,
    steps: Seq<StoreStep<T>>,
    handle: Handle<T>,
    from: int,
    to: int,
)
    requires
        store_history(states, steps),
        0 <= from <= to < states.len(),
        !(liveness_of(states[from], handle) is Destroyed),
        forall|i: int| from <= i < to ==> steps[i] != StoreStep::<T>::Invalidate(handle),
    ensures
        !(liveness_of(states[to], handle) is Destroyed),
    decreases to - from,
{
    if from < to {
        lemma_live_while_not_invalidated(states, steps, handle, from, to - 1);
        assert(store_next(states[to - 1], steps[to - 1], states[to - 1 + 1]));
        lemma_live_until_invalidated(states[to - 1], steps[to - 1], states[to], handle);
    }
}

/// As long as no step of a history invalidates a handle or hands its object
/// out, an object that is present at one point is present at every later
/// point, so that [`Handle::run`] reaches it there.
pub proof fn lemma_present_while_untouched<T>(
    states: Seq<Map<Handle<T>, Liveness<T>>>,
    steps: Seq<StoreStep<T>>,
    handle: Handle<T>,
    from: int,
    to: int,
)
    requires
        store_history(states, steps),
        0 <= from <= to < states.len(),
        liveness_of(states[from], handle) is Present,
        forall|i: int|
            from <= i < to ==> steps[i] != StoreStep::<T>::Invalidate(handle) && steps[i]
                != StoreStep::<T>::Checkout(handle),
    ensures
        liveness_of(states[to], handle) is Present,
    decreases to - from,
{
    if from < to {
        lemma_present_while_untouched(states, steps, handle, from, to - 1);
        assert(store_next(states[to - 1], steps[to - 1], states[to - 1 + 1]));
    }
}

/// A copy of a handle is the same weak reference as the handle it was made
/// from: in every store the two have the same liveness. Liveness depends on
/// the store and on the value of the handle alone, so what becomes of the
/// first handle afterwards, dropped or kept, does not touch the copy.
pub proof fn lemma_copy_shares_liveness<T>(
    store: Map<Handle<T>, Liveness<T>>,
    handle: Handle<T>,
    copy: Handle<T>,
)
    requires
        call_ensures(Handle::<T>::clone, (&handle,), copy),
    ensures
        copy == handle,
        liveness_of(store, copy) == liveness_of(store, handle),
        refusal(store, copy) == refusal(store, handle),
{
}

} // verus!
