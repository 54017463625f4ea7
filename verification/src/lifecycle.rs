//! The life of one container, as a machine.
//!
//! Threads act on a container in steps that cannot be split: everything
//! done under the lock is one step, and so is every change of the value's
//! shared-ownership count. This module writes those steps down over the
//! transition functions of [`crate::slot`] and proves what holds after any
//! run of them, in whatever order the threads take their turns.
//!
//! A handle is dropped in two steps. It first lets go of its share, and
//! only then takes the lock to clean up. Between the two, other threads may
//! look the value up, clone handles and drop them; the laws below hold all
//! the same.
//!
//! The machine assumes a lock that is not poisoned. It counts shares as the
//! standard library does: the slot holds one share while it is populated,
//! and every handle that has not let go holds one. The cleanup asks for
//! sole ownership of the slot's share, and gets it exactly when no handle
//! holds another.

use crate::slot::init_outcome;
use crate::slot::runs_creator;
use crate::slot::slot_after_init;
use crate::slot::slot_after_release;
use vstd::prelude::*;

verus! {

/// A container between two steps.
pub struct Lifecycle<T> {
    /// What the slot holds.
    pub value: Option<T>,
    /// How many handles hold a share of the value.
    pub handles: nat,
    /// How many handles have let go of their share and have yet to take the
    /// lock and clean up.
    pub leaving: nat,
}

/// One step of one thread.
pub enum Step<T, E> {
    /// `get_or_init`, with what its creator returns if it is run.
    GetOrInit { made: Result<T, E> },
    /// `get`.
    Get,
    /// `clone` of a handle.
    Clone,
    /// The first half of a handle's drop: its share is given up.
    LetGo,
    /// The second half: with the lock held, the slot gives up its own
    /// share if that is the last one.
    CleanUp,
}

impl<T> Lifecycle<T> {
    /// A container that was just made.
    pub open spec fn empty() -> Self {
        Lifecycle { value: None, handles: 0, leaving: 0 }
    }

    /// What holds between any two steps: a handle holds a share only of a
    /// value that is in the slot, and a value that no handle holds is kept
    /// only until a cleanup that is already on its way.
    pub open spec fn wf(self) -> bool {
        &&& self.handles > 0 ==> self.value is Some
        &&& self.value is Some && self.handles == 0 ==> self.leaving > 0
    }

    /// The number of shares of the value: the slot's and the handles'.
    pub open spec fn shares(self) -> nat {
        if self.value is Some {
            self.handles + 1
        } else {
            0
        }
    }

    /// Whether a thread can take this step now. Cloning and letting go take
    /// a handle that holds a share; cleaning up is the business of a handle
    /// that has let go.
    pub open spec fn allows<E>(self, step: Step<T, E>) -> bool {
        match step {
            Step::GetOrInit { .. } => true,
            Step::Get => true,
            Step::Clone => self.handles > 0,
            Step::LetGo => self.handles > 0,
            Step::CleanUp => self.leaving > 0,
        }
    }

    /// The state after a step.
    pub open spec fn after<E>(self, step: Step<T, E>) -> Self {
        match step {
            Step::GetOrInit { made } => {
                let value = slot_after_init(self.value, made);
                Lifecycle {
                    value,
                    handles: if value is Some {
                        self.handles + 1
                    } else {
                        self.handles
                    },
                    leaving: self.leaving,
                }
            },
            Step::Get => Lifecycle {
                value: self.value,
                handles: if self.value is Some {
                    self.handles + 1
                } else {
                    self.handles
                },
                leaving: self.leaving,
            },
            Step::Clone => Lifecycle {
                value: self.value,
                handles: self.handles + 1,
                leaving: self.leaving,
            },
            Step::LetGo => Lifecycle {
                value: self.value,
                handles: (self.handles - 1) as nat,
                leaving: self.leaving + 1,
            },
            Step::CleanUp => Lifecycle {
                value: slot_after_release(self.value, self.shares() == 1),
                handles: self.handles,
                leaving: (self.leaving - 1) as nat,
            },
        }
    }

    /// What `get_or_init` returns in this state: the value that its handle
    /// refers to, or the creator's error.
    pub open spec fn got_or_made<E>(self, made: Result<T, E>) -> Result<T, Option<E>> {
        match init_outcome(self.value, made) {
            Ok(value) => Ok(value),
            Err(err) => Err(Some(err)),
        }
    }

    /// What `get` returns in this state: the value that its handle refers
    /// to.
    pub open spec fn got(self) -> Option<T> {
        self.value
    }

    /// Whether a step destroys the value.
    pub open spec fn destroys<E>(self, step: Step<T, E>) -> bool {
        self.value is Some && self.after(step).value is None
    }

    /// Whether the steps can be taken one after the other from here.
    pub open spec fn allows_run<E>(self, steps: Seq<Step<T, E>>) -> bool
        decreases steps.len(),
    {
        if steps.len() == 0 {
            true
        } else {
            &&& self.allows_run(steps.drop_last())
            &&& self.after_run(steps.drop_last()).allows(steps.last())
        }
    }

    /// The state after the steps were taken one after the other.
    pub open spec fn after_run<E>(self, steps: Seq<Step<T, E>>) -> Self
        decreases steps.len(),
    {
        if steps.len() == 0 {
            self
        } else {
            self.after_run(steps.drop_last()).after(steps.last())
        }
    }

    /// The state after a whole drop of a handle, with no step of another
    /// thread between its two halves.
    pub open spec fn after_drop(self) -> Self {
        self.after(Step::<T, ()>::LetGo).after(Step::<T, ()>::CleanUp)
    }

    /// The state after `count` calls of `get_or_init` in a row whose
    /// creators all return `made` when they are run.
    pub open spec fn after_calls<E>(self, made: Result<T, E>, count: nat) -> Self
        decreases count,
    {
        if count == 0 {
            self
        } else {
            self.after_calls(made, (count - 1) as nat).after(Step::GetOrInit { made })
        }
    }

    /// The state after `count` whole drops in a row.
    pub open spec fn after_drops(self, count: nat) -> Self
        decreases count,
    {
        if count == 0 {
            self
        } else {
            self.after_drops((count - 1) as nat).after_drop()
        }
    }
}

/// [`Lifecycle::wf`] holds of a container that was just made.
pub proof fn lemma_empty_is_wf<T>()
    ensures
        Lifecycle::<T>::empty().wf(),
{
}

/// No step that a thread can take breaks [`Lifecycle::wf`].
pub proof fn lemma_step_keeps_wf<T, E>(state: Lifecycle<T>, step: Step<T, E>)
    requires
        state.wf(),
        state.allows(step),
    ensures
        state.after(step).wf(),
{
}

/// However the threads take their turns, what holds before their steps
/// holds after all of them.
pub proof fn lemma_run_keeps_wf<T, E>(state: Lifecycle<T>, steps: Seq<Step<T, E>>)
    requires
        state.wf(),
        state.allows_run(steps),
    ensures
        state.after_run(steps).wf(),
    decreases steps.len(),
{
    if steps.len() > 0 {
        lemma_run_keeps_wf(state, steps.drop_last());
        lemma_step_keeps_wf(state.after_run(steps.drop_last()), steps.last());
    }
}

/// While any handle holds a share, `get` finds the value, and
/// `get_or_init` hands out that same value without running its creator,
/// whatever the creator would have made.
pub proof fn lemma_live_value_is_found<T, E>(state: Lifecycle<T>, made: Result<T, E>)
    requires
        state.wf(),
        state.handles > 0,
    ensures
        state.got() is Some,
        !runs_creator(state.value),
        state.got_or_made(made) == Ok::<T, Option<E>>(state.got()->0),
{
}

/// The value is destroyed by a cleanup and by nothing else, and only when
/// no handle holds a share of it. While one does, no step puts another
/// value in its place either, so all handles that hold a share at one time
/// refer to the same value, the one in the slot.
pub proof fn lemma_no_teardown_while_live<T, E>(state: Lifecycle<T>, step: Step<T, E>)
    requires
        state.wf(),
        state.allows(step),
    ensures
        state.destroys(step) ==> step is CleanUp && state.handles == 0,
        state.handles > 0 ==> state.after(step).value == state.value,
{
}

/// A cleanup that finds the slot empty leaves it empty: of several handles
/// that let go together, one destroys the value and the others find
/// nothing left to do.
pub proof fn lemma_cleanup_of_an_empty_slot<T>(state: Lifecycle<T>)
    requires
        state.value is None,
    ensures
        state.after(Step::<T, ()>::CleanUp).value is None,
        !state.destroys(Step::<T, ()>::CleanUp),
{
}

/// A container that no handle refers to, and that no handle is still
/// leaving, is empty.
pub proof fn lemma_unused_container_is_empty<T>(state: Lifecycle<T>)
    requires
        state.wf(),
        state.handles == 0,
        state.leaving == 0,
    ensures
        state == Lifecycle::<T>::empty(),
        state.got() is None,
{
}

/// A whole drop takes one handle away, and the value with it if the handle
/// was the last.
pub proof fn lemma_drop_of_a_handle<T>(state: Lifecycle<T>)
    requires
        state.wf(),
        state.handles > 0,
    ensures
        state.after_drop() == (Lifecycle {
            value: slot_after_release(state.value, state.handles == 1),
            handles: (state.handles - 1) as nat,
            leaving: state.leaving,
        }),
        state.after_drop().wf(),
{
}

/// Of two handles to one value, the drop of the first keeps the value
/// where it is, so that `get` still finds it; the drop of the second
/// destroys it, so that `get` finds nothing.
pub proof fn lemma_teardown_waits_for_last_handle<T>(state: Lifecycle<T>)
    requires
        state.wf(),
        state.handles == 2,
        state.leaving == 0,
    ensures
        state.after_drop().got() == state.value,
        state.after_drop().got() is Some,
        state.after_drop().after_drop() == Lifecycle::<T>::empty(),
        state.after_drop().after_drop().got() is None,
{
    lemma_drop_of_a_handle(state);
    lemma_drop_of_a_handle(state.after_drop());
}

/// Drops of fewer handles than there are leave the value in place with the
/// rest of them; the drop of every handle empties the container.
pub proof fn lemma_drops_in_a_row<T>(state: Lifecycle<T>, count: nat)
    requires
        state.wf(),
        state.leaving == 0,
        count <= state.handles,
    ensures
        state.after_drops(count).wf(),
        state.after_drops(count).handles == state.handles - count,
        state.after_drops(count).leaving == 0,
        count < state.handles ==> state.after_drops(count).got() == state.value,
        count == state.handles ==> state.after_drops(count) == Lifecycle::<T>::empty(),
    decreases count,
{
    if count > 0 {
        lemma_drops_in_a_row(state, (count - 1) as nat);
        lemma_drop_of_a_handle(state.after_drops((count - 1) as nat));
    }
}

/// Once every handle is dropped, the next `get_or_init` runs its creator
/// again and hands out what the creator makes: the new value owes nothing
/// to the one that was destroyed.
pub proof fn lemma_recreated_after_teardown<T, E>(state: Lifecycle<T>, fresh: T)
    requires
        state.wf(),
        state.leaving == 0,
    ensures
        ({
            let torn_down = state.after_drops(state.handles);
            let made = Ok::<T, E>(fresh);
            &&& torn_down.got() is None
            &&& runs_creator(torn_down.value)
            &&& torn_down.got_or_made(made) == Ok::<T, Option<E>>(fresh)
            &&& torn_down.after(Step::GetOrInit { made }) == Lifecycle {
                value: Some(fresh),
                handles: 1,
                leaving: 0,
            }
        }),
{
    lemma_drops_in_a_row(state, state.handles);
}

/// With a creator that always fails, an empty container stays empty
/// however often `get_or_init` is called: every call runs the creator and
/// returns its error, and `get` finds nothing after any of them.
pub proof fn lemma_failed_creator_leaves_empty<T, E>(err: E, count: nat)
    ensures
        ({
            let made = Err::<T, E>(err);
            let reached = Lifecycle::<T>::empty().after_calls(made, count);
            &&& reached == Lifecycle::<T>::empty()
            &&& reached.got() is None
            &&& runs_creator(reached.value)
            &&& reached.got_or_made(made) == Err::<T, Option<E>>(Some(err))
        }),
    decreases count,
{
    if count > 0 {
        lemma_failed_creator_leaves_empty::<T, E>(err, (count - 1) as nat);
    }
}

/// Of any number of calls of `get_or_init` on an empty container, served
/// one after the other by the lock, only the first runs the creator. Every
/// one of them returns a handle to the value that it made, and all these
/// handles hold a share of it afterwards.
pub proof fn lemma_creator_runs_once<T, E>(value: T, count: nat)
    ensures
        ({
            let made = Ok::<T, E>(value);
            let reached = Lifecycle::<T>::empty().after_calls(made, count);
            &&& runs_creator(reached.value) <==> count == 0
            &&& reached.got_or_made(made) == Ok::<T, Option<E>>(value)
            &&& reached.after(Step::GetOrInit { made }) == Lifecycle {
                value: Some(value),
                handles: count + 1,
                leaving: 0,
            }
        }),
    decreases count,
{
    if count > 0 {
        lemma_creator_runs_once::<T, E>(value, (count - 1) as nat);
    }
}

} // verus!
