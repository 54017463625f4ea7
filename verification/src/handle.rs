//! The counted handle.

use crate::singleton::RefCountedSingleton;
use crate::sync::another_share;
use std::cmp::Ordering;
use std::hash::Hash;
use std::hash::Hasher;
use std::ops::Deref;
use std::sync::Arc;
use vstd::prelude::*;
use vstd::std_specs::cmp::OrdSpec;
use vstd::std_specs::cmp::PartialEqSpec;
use vstd::std_specs::cmp::PartialOrdSpec;

verus! {

/// The tie between a handle and its container. Dropping it is the second
/// half of the handle's destruction, the cleanup under the lock.
#[derive(Debug)]
#[verifier::reject_recursive_types(T)]
struct Anchor<'t, T> {
    home: &'t RefCountedSingleton<T>,
}

impl<'t, T> Drop for Anchor<'t, T> {
    fn drop(&mut self)
        opens_invariants none
        no_unwind
    {
        self.home.release();
    }
}

/// Read-only counted reference to the value of a [`RefCountedSingleton`].
///
/// A handle is destroyed in two steps, in the order of its fields. First
/// `data` goes, which gives up this handle's share of the value. Then `rcs`
/// goes, which takes the container's lock and lets the slot give up its own
/// share if that is now the last one. The handle does not touch the value
/// after the first step. The two are the steps `LetGo` and `CleanUp` of
/// [`crate::lifecycle`]. With a poisoned lock the second step does nothing,
/// and the container keeps what it held.
///
/// The second step takes the lock, and the value is destroyed while the
/// lock is held. So a handle must not be dropped by a creator that was
/// handed to `get_or_init` of the same container, nor by the destructor of
/// the value, and neither of the two may call `get` or `get_or_init` of
/// that container: a second attempt to take the lock by the thread that
/// holds it does not return.
#[derive(Debug)]
#[verifier::reject_recursive_types(T)]
pub struct RCSRef<'t, T> {
    data: Arc<T>,
    rcs: Anchor<'t, T>,
}

impl<'t, T> View for RCSRef<'t, T> {
    type V = T;

    /// The value that the handle refers to.
    closed spec fn view(&self) -> T {
        *self.data
    }
}

impl<'t, T> RCSRef<'t, T> {
    /// The container that the handle came from, and that it turns to
    /// when it is dropped.
    pub closed spec fn container(&self) -> &RefCountedSingleton<T> {
        self.rcs.home
    }

    /// A handle made of a share and the container that the share is from.
    pub(crate) fn attach(share: Arc<T>, home: &'t RefCountedSingleton<T>) -> (handle: Self)
        ensures
            handle@ == *share,
            handle.container() == home,
    {
        RCSRef { data: share, rcs: Anchor { home } }
    }
}

impl<'t, T> Deref for RCSRef<'t, T> {
    type Target = T;

    fn deref(&self) -> (value: &T)
        ensures
            *value == self@,
    {
        &*self.data
    }
}

impl<'t, T> Clone for RCSRef<'t, T> {
    /// One more handle to the same value, from the same container. The
    /// lock is not taken.
    fn clone(&self) -> (other: Self)
        ensures
            other@ == self@,
            other.container() == self.container(),
    {
        RCSRef { data: another_share(&self.data), rcs: Anchor { home: self.rcs.home } }
    }
}

impl<'t, T: PartialEq> PartialEq for RCSRef<'t, T> {
    fn eq(&self, other: &Self) -> (equal: bool) {
        (*self.data).eq(&*other.data)
    }
}

impl<'t, T: PartialEq> vstd::std_specs::cmp::PartialEqSpecImpl for RCSRef<'t, T> {
    open spec fn obeys_eq_spec() -> bool {
        T::obeys_eq_spec()
    }

    /// Handles are equal where their values are.
    open spec fn eq_spec(&self, other: &Self) -> bool {
        self@.eq_spec(&other@)
    }
}

impl<'t, T: Eq> Eq for RCSRef<'t, T> {

}

impl<'t, T: PartialOrd> PartialOrd for RCSRef<'t, T> {
    fn partial_cmp(&self, other: &Self) -> (order: Option<Ordering>) {
        (*self.data).partial_cmp(&*other.data)
    }
}

impl<'t, T: PartialOrd> vstd::std_specs::cmp::PartialOrdSpecImpl for RCSRef<'t, T> {
    open spec fn obeys_partial_cmp_spec() -> bool {
        T::obeys_partial_cmp_spec()
    }

    /// Handles are ordered as their values are.
    open spec fn partial_cmp_spec(&self, other: &Self) -> Option<Ordering> {
        self@.partial_cmp_spec(&other@)
    }
}

impl<'t, T: Ord> Ord for RCSRef<'t, T> {
    /// `Ord::cmp` of the two values. Assumed, not proved: the order of the
    /// values is the order of the handles.
    #[verifier::external_body]
    fn cmp(&self, other: &Self) -> (order: Ordering)
        ensures
            T::obeys_cmp_spec() ==> order == self@.cmp_spec(&other@),
    {
        (*self.data).cmp(&*other.data)
    }
}

impl<'t, T: Hash> Hash for RCSRef<'t, T> {
    /// `Hash::hash` of the value, and of nothing else. Nothing is stated
    /// of what is fed to the hasher.
    #[verifier::external_body]
    fn hash<H: Hasher>(&self, state: &mut H) {
        (*self.data).hash(state)
    }
}

/// Equality of handles looks at the value and at nothing else: two
/// handles to one value, such as a handle and its clone, are equal to each
/// other wherever that value is equal to itself, and either can stand for
/// the other in a comparison with a third handle.
pub proof fn lemma_equality_follows_the_value<'t, T: PartialEq>(
    a: RCSRef<'t, T>,
    b: RCSRef<'t, T>,
    c: RCSRef<'t, T>,
)
    requires
        a@ == b@,
    ensures
        a.eq_spec(&b) == a@.eq_spec(&a@),
        a.eq_spec(&c) == b.eq_spec(&c),
        c.eq_spec(&a) == c.eq_spec(&b),
{
}

/// The same of the order of handles: two handles to one value are ordered
/// as that value is with itself, and either can stand for the other.
pub proof fn lemma_order_follows_the_value<'t, T: PartialOrd>(
    a: RCSRef<'t, T>,
    b: RCSRef<'t, T>,
    c: RCSRef<'t, T>,
)
    requires
        a@ == b@,
    ensures
        a.partial_cmp_spec(&b) == a@.partial_cmp_spec(&a@),
        a.partial_cmp_spec(&c) == b.partial_cmp_spec(&c),
        c.partial_cmp_spec(&a) == c.partial_cmp_spec(&b),
{
}

} // verus!
