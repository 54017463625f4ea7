//! The slot behind the lock, and every decision that is taken on it.
//!
//! A slot is empty or holds the container's own share of the protected
//! value. The functions here run while the lock is held, so they see the
//! slot as an ordinary `&mut` value and their contracts are exact. Where a
//! step depends on something outside the slot (what the creator returned,
//! whether other shares are left) that outcome is a parameter of a function
//! of its own, so that the decision is stated for every outcome.

use crate::sync::another_share;
use crate::sync::into_sole_owner;
use std::sync::Arc;
use vstd::prelude::*;

verus! {

/// What a slot holds after a get-or-create went through it, where `made` is
/// what the creator returns if it is run.
///
/// A populated slot is left alone. An empty one takes the creator's value,
/// and stays empty when the creator fails.
pub open spec fn slot_after_init<T, E>(before: Option<T>, made: Result<T, E>) -> Option<T> {
    match before {
        Some(_) => before,
        None => match made {
            Ok(value) => Some(value),
            Err(_) => None,
        },
    }
}

/// What the same get-or-create hands out: the value that was there, or
/// else whatever the creator made of it.
pub open spec fn init_outcome<T, E>(before: Option<T>, made: Result<T, E>) -> Result<T, E> {
    match before {
        Some(value) => Ok(value),
        None => made,
    }
}

/// Whether a get-or-create on this slot runs the creator at all.
pub open spec fn runs_creator<T>(before: Option<T>) -> bool {
    before is None
}

/// What a slot holds after a handle was given up, where `last` says that
/// no other share of the value was left.
pub open spec fn slot_after_release<T>(before: Option<T>, last: bool) -> Option<T> {
    if last {
        None
    } else {
        before
    }
}

/// The value behind a result that carries a share.
pub open spec fn unshared<T, E>(result: Result<Arc<T>, E>) -> Result<T, E> {
    match result {
        Ok(share) => Ok(*share),
        Err(err) => Err(err),
    }
}

/// What a get-or-create hands out is what the slot holds afterwards.
///
/// A value goes out exactly when the slot ends up populated, and it is the
/// value in the slot. An error goes out only where the slot was empty and
/// the creator failed, and it leaves the slot empty. A populated slot is
/// never changed and never needs the creator.
pub proof fn lemma_init_hands_out_what_is_held<T, E>(before: Option<T>, made: Result<T, E>)
    ensures
        init_outcome(before, made) matches Ok(value) ==> slot_after_init(before, made) == Some(value),
        init_outcome(before, made) is Err ==> ({
            &&& before is None
            &&& made is Err
            &&& slot_after_init(before, made) is None
        }),
        !runs_creator(before) ==> ({
            &&& slot_after_init(before, made) == before
            &&& init_outcome(before, made) == Ok::<T, E>(before->0)
        }),
{
}

/// The place that the lock guards: empty, or the container's own share of
/// the one live value.
#[derive(Debug)]
pub struct Slot<T> {
    held: Option<Arc<T>>,
}

impl<T> View for Slot<T> {
    type V = Option<T>;

    /// The value in the slot, if there is one.
    closed spec fn view(&self) -> Option<T> {
        match self.held {
            Some(share) => Some(*share),
            None => None,
        }
    }
}

/// What a lookup sees, given what the lock gave: the value in the slot, and
/// nothing where the lock is poisoned and gave no slot at all.
pub open spec fn seen_under<T>(locked: Option<&Slot<T>>) -> Option<T> {
    match locked {
        Some(slot) => slot@,
        None => None,
    }
}

impl<T> Slot<T> {
    /// A slot with nothing in it.
    pub fn empty() -> (slot: Self)
        ensures
            slot@ is None,
    {
        Slot { held: None }
    }

    /// A new share of the value, if the slot holds one. The slot itself is
    /// not changed.
    pub fn share(&self) -> (found: Option<Arc<T>>)
        ensures
            (match found {
                Some(share) => self@ == Some(*share),
                None => self@ is None,
            }),
    {
        match &self.held {
            Some(share) => Some(another_share(share)),
            None => None,
        }
    }

    /// Puts the outcome of a creator into an empty slot.
    ///
    /// On `Ok` the slot keeps one share of the new value and a second one
    /// is returned. On `Err` the slot stays empty and the error is passed
    /// on unchanged.
    pub fn install<E>(&mut self, made: Result<T, E>) -> (result: Result<Arc<T>, E>)
        requires
            old(self)@ is None,
        ensures
            final(self)@ == slot_after_init(old(self)@, made),
            unshared(result) == made,
    {
        match made {
            Ok(value) => {
                let kept = Arc::new(value);
                let handed_out = another_share(&kept);
                self.held = Some(kept);
                Ok(handed_out)
            },
            Err(err) => Err(err),
        }
    }

    /// A share of the value in the slot; if the slot is empty, the creator
    /// is run and its outcome installed.
    ///
    /// The creator has to be callable only where the slot is empty: on a
    /// populated slot it is dropped without being run.
    pub fn share_or_create<E, F: FnOnce() -> Result<T, E>>(
        &mut self,
        creator: F,
    ) -> (result: Result<Arc<T>, E>)
        requires
            runs_creator(old(self)@) ==> creator.requires(()),
        ensures
            runs_creator(old(self)@) ==> creator.ensures((), unshared(result)),
            final(self)@ == slot_after_init(old(self)@, unshared(result)),
            unshared(result) == init_outcome(old(self)@, unshared(result)),
    {
        match &self.held {
            Some(share) => Ok(another_share(share)),
            None => {
                let made = creator();
                self.install(made)
            },
        }
    }

    /// Finishes a release, given what became of the share that was taken
    /// out of the slot: `Ok` if it was the last one, in which case the
    /// value is destroyed here and the slot left empty; `Err` with the
    /// share itself if others are left, in which case it goes back in.
    ///
    /// Returns whether the slot is empty afterwards.
    pub fn settle(&mut self, outcome: Result<T, Arc<T>>) -> (emptied: bool)
        ensures
            final(self)@ == (match outcome {
                Ok(_) => None,
                Err(share) => Some(*share),
            }),
            emptied == outcome is Ok,
        opens_invariants none
        no_unwind
    {
        match outcome {
            Ok(_value) => {
                self.held = None;
                true
            },
            Err(share) => {
                self.held = Some(share);
                false
            },
        }
    }

    /// Gives up the slot's share if no handle needs the value any more.
    ///
    /// The share is taken out of the slot and asked for sole ownership.
    /// If it was the last one the value is destroyed and the slot stays
    /// empty; otherwise the share is put back and the slot is as before.
    /// Returns whether the slot is empty afterwards.
    pub fn reclaim(&mut self) -> (emptied: bool)
        ensures
            final(self)@ == slot_after_release(old(self)@, emptied),
            emptied == final(self)@ is None,
        opens_invariants none
        no_unwind
    {
        let mut taken: Option<Arc<T>> = None;
        std::mem::swap(&mut self.held, &mut taken);
        match taken {
            Some(share) => self.settle(into_sole_owner(share)),
            None => true,
        }
    }
}

} // verus!
