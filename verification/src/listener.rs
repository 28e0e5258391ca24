//! Listener bindings, and the wrapper that owns them.
//!
//! A [`ListenerBinding`] stands for the subscription of one entry point to one
//! notification source of the native library. A [`Wrapper`] owns the bindings
//! of one native object together with the data that the entry points work on.
//! Tearing a wrapper down releases every binding, and names each released
//! subscription exactly once, so that it is removed from the native source
//! once and never twice.

use vstd::prelude::*;

verus! {

/// The kinds of notification that the native library raises.
#[derive(Clone, Copy, Debug, PartialEq, Eq, Structural, Hash)]
pub enum NotificationKind {
    DeviceAdded,
    DeviceRemoved,
    Key,
    Motion,
    Button,
    Axis,
    Proximity,
    Tip,
    Ready,
    NewSurface,
    Destroyed,
    Ping,
    Frame,
}

/// The subscription of one entry point to one notification source.
///
/// The view of a binding is its kind together with whether it is still bound.
pub struct ListenerBinding {
    kind: NotificationKind,
    bound: bool,
}

impl View for ListenerBinding {
    type V = (NotificationKind, bool);

    closed spec fn view(&self) -> (NotificationKind, bool) {
        (self.kind, self.bound)
    }
}

impl ListenerBinding {
    /// A fresh, bound subscription to notifications of `kind`.
    pub fn new(kind: NotificationKind) -> (binding: Self)
        ensures
            binding@ == (kind, true),
    {
        ListenerBinding { kind, bound: true }
    }

    /// The kind of notification this binding subscribes to.
    pub fn kind(&self) -> (kind: NotificationKind)
        ensures
            kind == self@.0,
    {
        self.kind
    }

    /// Whether the subscription is still in place.
    pub fn is_bound(&self) -> (bound: bool)
        ensures
            bound == self@.1,
    {
        self.bound
    }

    /// Releases the binding. The answer is `true` for the one call that finds
    /// the binding bound: that caller has to remove the subscription from the
    /// native source. Every later call answers `false`.
    pub fn unbind(&mut self) -> (released: bool)
        ensures
            released == old(self)@.1,
            final(self)@ == (old(self)@.0, false),
    {
        let released = self.bound;
        self.bound = false;
        released
    }
}

/// The kinds of the bindings in `bindings` that are bound, in their order.
pub open spec fn bound_kinds(bindings: Seq<(NotificationKind, bool)>) -> Seq<NotificationKind>
    decreases bindings.len(),
{
    if bindings.len() == 0 {
        Seq::empty()
    } else if bindings.last().1 {
        bound_kinds(bindings.drop_last()).push(bindings.last().0)
    } else {
        bound_kinds(bindings.drop_last())
    }
}

/// The bindings in `bindings`, all released.
pub open spec fn released(bindings: Seq<(NotificationKind, bool)>) -> Seq<(NotificationKind, bool)> {
    Seq::new(bindings.len(), |i: int| (bindings[i].0, false))
}

/// Whether `bindings` holds a bound binding of `kind`.
pub open spec fn listening(bindings: Seq<(NotificationKind, bool)>, kind: NotificationKind) -> bool {
    exists|i: int| 0 <= i < bindings.len() && #[trigger] bindings[i] == (kind, true)
}

/// The owner of the listener bindings of one native object, and of the data
/// that belongs to the object on this side.
pub struct Wrapper<D> {
    bindings: Vec<ListenerBinding>,
    data: D,
}

/// A wrapper as contracts see it.
pub struct WrapperView<D> {
    /// The bindings, each as its kind and whether it is bound.
    pub bindings: Seq<(NotificationKind, bool)>,
    /// What the entry points of the object work on.
    pub data: D,
}

impl<D> View for Wrapper<D> {
    type V = WrapperView<D>;

    closed spec fn view(&self) -> WrapperView<D> {
        WrapperView {
            bindings: Seq::new(self.bindings@.len(), |i: int| self.bindings@[i]@),
            data: self.data,
        }
    }
}

impl<D> Wrapper<D> {
    /// Whether the wrapper still listens to notifications of `kind`.
    pub open spec fn listens_to(&self, kind: NotificationKind) -> bool {
        listening(self@.bindings, kind)
    }

    /// A wrapper around `data` with one bound binding for each entry of
    /// `kinds`.
    pub fn new(kinds: &Vec<NotificationKind>, data: D) -> (wrapper: Self)
        ensures
            wrapper@.data == data,
            wrapper@.bindings == Seq::new(kinds@.len(), |i: int| (kinds@[i], true)),
    {
        let mut bindings: Vec<ListenerBinding> = Vec::new();
        let mut i: usize = 0;
        while i < kinds.len()
            invariant
                i <= kinds@.len(),
                bindings@.len() == i,
                forall|j: int| 0 <= j < i ==> (#[trigger] bindings@[j])@ == (kinds@[j], true),
            decreases kinds@.len() - i,
        {
            bindings.push(ListenerBinding::new(kinds[i]));
            i += 1;
        }
        let wrapper = Wrapper { bindings, data };
        assert(wrapper@.bindings =~= Seq::new(kinds@.len(), |i: int| (kinds@[i], true)));
        wrapper
    }

    /// The data of the wrapper.
    pub fn data(&self) -> (data: &D)
        ensures
            *data == self@.data,
    {
        &self.data
    }

    /// The data of the wrapper, for writing. The bindings stay as they are.
    pub fn data_mut(&mut self) -> (data: &mut D)
        ensures
            *data == old(self)@.data,
            final(self)@ == (WrapperView { bindings: old(self)@.bindings, data: *final(data) }),
    {
        &mut self.data
    }

    /// Whether the wrapper still listens to notifications of `kind`.
    pub fn is_listening(&self, kind: NotificationKind) -> (listening: bool)
        ensures
            listening == self.listens_to(kind),
    {
        let mut i: usize = 0;
        while i < self.bindings.len()
            invariant
                i <= self.bindings@.len(),
                forall|j: int| 0 <= j < i ==> self@.bindings[j] != (kind, true),
            decreases self.bindings@.len() - i,
        {
            let binding = &self.bindings[i];
            if binding.is_bound() && binding.kind() == kind {
                assert(self@.bindings[i as int] == (kind, true));
                return true;
            }
            i += 1;
        }
        false
    }

    /// Releases every binding of the wrapper and returns the kinds of those
    /// that were still bound, in their order: the subscriptions that the caller
    /// has to remove from the native source. A wrapper that was torn down
    /// before has none left, so no subscription is ever removed twice.
    pub fn teardown(&mut self) -> (removed: Vec<NotificationKind>)
        ensures
            removed@ == bound_kinds(old(self)@.bindings),
            final(self)@.bindings == released(old(self)@.bindings),
            final(self)@.data == old(self)@.data,
    {
        let mut removed: Vec<NotificationKind> = Vec::new();
        let mut i: usize = 0;
        while i < self.bindings.len()
            invariant
                i <= self.bindings@.len(),
                self.bindings@.len() == old(self).bindings@.len(),
                self.data == old(self).data,
                removed@ == bound_kinds(old(self)@.bindings.take(i as int)),
                forall|j: int|
                    0 <= j < i ==> (#[trigger] self.bindings@[j])@ == (
                        old(self).bindings@[j]@.0,
                        false,
                    ),
                forall|j: int|
                    i <= j < self.bindings@.len() ==> #[trigger] self.bindings@[j] == old(
                        self,
                    ).bindings@[j],
            decreases self.bindings@.len() - i,
        {
            let kind = self.bindings[i].kind();
            let was_bound = self.bindings[i].unbind();
            proof {
                let before = old(self)@.bindings;
                assert(before.take(i + 1).drop_last() =~= before.take(i as int));
                assert(before.take(i + 1).last() == before[i as int]);
            }
            if was_bound {
                removed.push(kind);
            }
            i += 1;
        }
        proof {
            assert(old(self)@.bindings.take(i as int) =~= old(self)@.bindings);
            assert(self@.bindings =~= released(old(self)@.bindings));
        }
        removed
    }
}

/// A binding list that was released listens to nothing and has nothing left
/// to remove: tearing a wrapper down a second time names no subscription.
pub proof fn lemma_released_is_silent(bindings: Seq<(NotificationKind, bool)>)
    ensures
        bound_kinds(released(bindings)) == Seq::<NotificationKind>::empty(),
        forall|kind: NotificationKind| !listening(released(bindings), kind),
        released(released(bindings)) == released(bindings),
    decreases bindings.len(),
{
    let after = released(bindings);
    if bindings.len() > 0 {
        lemma_released_is_silent(bindings.drop_last());
        assert(after.drop_last() =~= released(bindings.drop_last()));
    }
    assert(released(after) =~= after);
}

/// Tearing down names exactly the subscriptions that were in place: a kind is
/// among the removed ones if and only if the wrapper listened to it.
pub proof fn lemma_bound_kinds_are_the_listened(
    bindings: Seq<(NotificationKind, bool)>,
    kind: NotificationKind,
)
    ensures
        bound_kinds(bindings).contains(kind) <==> listening(bindings, kind),
    decreases bindings.len(),
{
    if bindings.len() > 0 {
        let rest = bindings.drop_last();
        let kinds = bound_kinds(bindings);
        lemma_bound_kinds_are_the_listened(rest, kind);
        if listening(bindings, kind) {
            let i: int = choose|i: int|
                0 <= i < bindings.len() && #[trigger] bindings[i] == (kind, true);
            if i < rest.len() {
                assert(rest[i] == (kind, true));
                let j: int = choose|j: int|
                    0 <= j < bound_kinds(rest).len() && bound_kinds(rest)[j] == kind;
                assert(kinds[j] == kind);
            } else {
                assert(kinds[kinds.len() - 1] == kind);
            }
            assert(kinds.contains(kind));
        }
        if kinds.contains(kind) {
            let j: int = choose|j: int| 0 <= j < kinds.len() && kinds[j] == kind;
            if j < bound_kinds(rest).len() {
                assert(bound_kinds(rest)[j] == kind);
                assert(bound_kinds(rest).contains(kind));
                let i: int = choose|i: int|
                    0 <= i < rest.len() && #[trigger] rest[i] == (kind, true);
                assert(bindings[i] == (kind, true));
            } else {
                assert(bindings[bindings.len() - 1] == (kind, true));
            }
            assert(listening(bindings, kind));
        }
    }
}

} // verus!
