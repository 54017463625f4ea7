//! The container: a lock around one slot.

use crate::handle::RCSRef;
use crate::slot::runs_creator;
use crate::slot::seen_under;
use crate::slot::slot_after_release;
use crate::slot::Slot;
use crate::sync::guarded;
use crate::sync::lock;
use crate::sync::new_lock;
use std::sync::Mutex;
use vstd::prelude::*;

verus! {

/// A reference-counted singleton whose protected value can be recreated as
/// needed.
///
/// The value is created when [`RefCountedSingleton::get_or_init`] finds the
/// container empty. Both lookups return an [`RCSRef`], which can be cloned;
/// the last handle to go destroys the value, after which `get_or_init`
/// creates it anew.
///
/// The slot is shared between threads, so it is not part of the
/// container's value and no contract of the public functions speaks of it:
/// they state what holds whatever the lock gave. Each of them only takes
/// the lock and hands what it gave to a function that says exactly what is
/// done with it: [`Self::get_or_init_locked`], [`Self::get_locked`] and
/// [`Self::release_locked`], over the contracts of [`Slot`].
#[derive(Debug)]
#[verifier::reject_recursive_types(T)]
pub struct RefCountedSingleton<T>(Mutex<Slot<T>>);

impl<T> Default for RefCountedSingleton<T> {
    /// An empty container.
    fn default() -> Self {
        RefCountedSingleton(new_lock(Slot::empty()))
    }
}

impl<T> RefCountedSingleton<T> {
    /// Returns a handle to the protected value if there is one, and
    /// otherwise creates the value by calling `creator`.
    ///
    /// The creator runs while the lock is held, and only if the container
    /// is empty, so that racing callers are served one after the other and
    /// all but the first find the value in place.
    ///
    /// * `Ok(handle)`: the handle belongs to this container.
    /// * `Err(Some(err))`: the container was empty and the creator returned
    ///   `err`; the container is still empty.
    /// * `Err(None)`: the lock is poisoned; the creator was not run.
    ///
    /// Which of these it is depends on what the lock gives, and on what the
    /// slot holds then; [`Self::get_or_init_locked`] says so for all of it.
    ///
    /// The creator must not turn to this container itself, and neither
    /// must the destructor of the value: the lock is held while they run,
    /// and a second attempt to take it by the same thread does not return.
    pub fn get_or_init<E>(
        &self,
        creator: impl FnOnce() -> Result<T, E>,
    ) -> (result: Result<RCSRef<'_, T>, Option<E>>)
        requires
            creator.requires(()),
        ensures
            (match result {
                Ok(handle) => handle.container() == self,
                Err(Some(err)) => creator.ensures((), Err(err)),
                Err(None) => true,
            }),
    {
        match lock(&self.0) {
            Some(mut guard) => self.get_or_init_locked(Some(guarded(&mut guard)), creator),
            None => self.get_or_init_locked(None, creator),
        }
    }

    /// Returns a handle to the protected value if there is one.
    ///
    /// `None` stands for an empty container and for a poisoned lock alike;
    /// [`Self::get_locked`] says what is returned for all that the lock gives.
    ///
    /// The lock is taken for the lookup. A creator that was handed to
    /// [`Self::get_or_init`] of this container, or the destructor of its
    /// value, must not call this function: they run while the lock is held.
    pub fn get(&self) -> (found: Option<RCSRef<'_, T>>)
        ensures
            found matches Some(handle) ==> handle.container() == self,
    {
        match lock(&self.0) {
            Some(mut guard) => self.get_locked(Some(&*guarded(&mut guard))),
            None => self.get_locked(None),
        }
    }

    /// `get_or_init` on what the lock gave: the slot that it guards, or
    /// `None` where it is poisoned.
    ///
    /// With a poisoned lock the result is `Err(None)`, and nothing else is
    /// done: the creator is not run, and there is no slot to change. With
    /// the slot in hand `Err(None)` is never returned. A populated slot is
    /// left as it is and a handle to its value is returned; the creator is
    /// not run. On an empty slot the creator is run: its value goes into
    /// the slot and a handle to it is returned, or its error is returned as
    /// `Err(Some(..))` and the slot stays empty.
    ///
    /// The creator has to be callable only where it is run: where the lock
    /// gave the slot and the slot is empty.
    pub(crate) fn get_or_init_locked<'s, E, F: FnOnce() -> Result<T, E>>(
        &'s self,
        locked: Option<&mut Slot<T>>,
        creator: F,
    ) -> (result: Result<RCSRef<'s, T>, Option<E>>)
        requires
            locked matches Some(slot) ==> (runs_creator(slot@) ==> creator.requires(())),
        ensures
            (match locked {
                Some(slot) => match result {
                    Ok(handle) => {
                        &&& handle.container() == self
                        &&& final(slot)@ == Some(handle@)
                        &&& slot@ matches Some(value) ==> handle@ == value
                        &&& slot@ is None ==> creator.ensures((), Ok(handle@))
                    },
                    Err(Some(err)) => {
                        &&& slot@ is None
                        &&& final(slot)@ is None
                        &&& creator.ensures((), Err(err))
                    },
                    Err(None) => false,
                },
                None => result matches Err(None),
            }),
    {
        match locked {
            Some(slot) => match slot.share_or_create(creator) {
                Ok(share) => Ok(RCSRef::attach(share, self)),
                Err(err) => Err(Some(err)),
            },
            None => Err(None),
        }
    }

    /// `get` on what the lock gave: the slot that it guards, or `None` where
    /// it is poisoned.
    ///
    /// A handle to the value in the slot is returned if the lock gave the
    /// slot and the slot holds a value. A poisoned lock and an empty slot
    /// both give `None`, and are not told apart.
    pub(crate) fn get_locked<'s>(
        &'s self,
        locked: Option<&Slot<T>>,
    ) -> (found: Option<RCSRef<'s, T>>)
        ensures
            (match found {
                Some(handle) => seen_under(locked) == Some(handle@) && handle.container() == self,
                None => seen_under(locked) is None,
            }),
    {
        match locked {
            Some(slot) => match slot.share() {
                Some(share) => Some(RCSRef::attach(share, self)),
                None => None,
            },
            None => None,
        }
    }

    /// The second half of a handle's destruction: the lock is taken, and
    /// [`Self::release_locked`] does the rest on what it gave.
    pub(crate) fn release(&self)
        opens_invariants none
        no_unwind
    {
        match lock(&self.0) {
            Some(mut guard) => {
                Self::release_locked(Some(guarded(&mut guard)));
            },
            None => {
                Self::release_locked(None);
            },
        }
    }

    /// The cleanup on what the lock gave: the slot that it guards, or
    /// `None` where it is poisoned.
    ///
    /// With the slot in hand, the slot gives up its share if it is the last
    /// one, as [`Slot::reclaim`] says. With a poisoned lock nothing is done:
    /// no slot is touched, so the container keeps what it held, and no
    /// value is destroyed here. Returns whether a slot was left empty.
    pub(crate) fn release_locked(locked: Option<&mut Slot<T>>) -> (emptied: bool)
        ensures
            (match locked {
                Some(slot) => {
                    &&& final(slot)@ == slot_after_release(slot@, emptied)
                    &&& emptied == final(slot)@ is None
                },
                None => !emptied,
            }),
        opens_invariants none
        no_unwind
    {
        match locked {
            Some(slot) => slot.reclaim(),
            None => false,
        }
    }
}

} // verus!
