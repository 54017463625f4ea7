//! The standard library's lock and shared-ownership calls.
//!
//! Nothing in this file is proved. Each item names the function it stands
//! for and says what is assumed of it; everything else in the crate is
//! verified against these statements alone.

use std::sync::Arc;
use std::sync::Mutex;
use std::sync::MutexGuard;
use vstd::prelude::*;

verus! {

/// `std::sync::Mutex`, carried as an opaque value: what it guards is shared
/// with other threads, so no contract speaks of it.
#[verifier::external_type_specification]
#[verifier::external_body]
#[verifier::reject_recursive_types(T)]
pub struct ExMutex<T: ?Sized>(Mutex<T>);

/// `std::sync::MutexGuard`, equally opaque. Dropping it releases the lock.
#[verifier::external_type_specification]
#[verifier::external_body]
#[verifier::reject_recursive_types(T)]
pub struct ExMutexGuard<'a, T: ?Sized + 'a>(MutexGuard<'a, T>);

/// `Mutex::new`: a lock around `content`. Nothing is stated of the result,
/// because a lock's content is not part of its value.
#[verifier::external_body]
pub(crate) fn new_lock<V>(content: V) -> Mutex<V> {
    Mutex::new(content)
}

/// `Mutex::lock`, with the poisoned case folded into `None`.
///
/// The call blocks until the lock is free. It is assumed to return: the
/// standard library lets it panic or wait forever when the calling thread
/// holds the lock already, which this crate never does between two of its
/// own calls, but which a creator or a destructor that re-enters the same
/// container would cause.
#[verifier::external_body]
pub(crate) fn lock<'a, V>(mutex: &'a Mutex<V>) -> Option<MutexGuard<'a, V>>
    opens_invariants none
    no_unwind
{
    mutex.lock().ok()
}

/// `DerefMut::deref_mut` of a guard: the guarded content itself. Other
/// threads may have changed it since it was last seen, so nothing is stated
/// of what it holds.
#[verifier::external_body]
pub(crate) fn guarded<'g, 'a, V>(guard: &'g mut MutexGuard<'a, V>) -> &'g mut V
    opens_invariants none
    no_unwind
{
    &mut **guard
}

/// `Arc::clone`: one more share of the same value.
#[verifier::external_body]
pub(crate) fn another_share<T>(share: &Arc<T>) -> (other: Arc<T>)
    ensures
        *other == **share,
{
    Arc::clone(share)
}

/// `Arc::try_unwrap`: the value itself if `share` was the only one left,
/// else the same share back. Which of the two happens depends on what other
/// owners have done, so the contract covers both.
#[verifier::external_body]
pub(crate) fn into_sole_owner<T>(share: Arc<T>) -> (outcome: Result<T, Arc<T>>)
    ensures
        (match outcome {
            Ok(value) => value == *share,
            Err(same) => *same == *share,
        }),
    opens_invariants none
    no_unwind
{
    Arc::try_unwrap(share)
}

} // verus!
