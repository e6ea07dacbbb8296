//! The guard's state machine, verified against the storage model.

use vstd::prelude::*;
use soroban_sdk::Env;
use crate::storage::{guard_slot, read_guard_slot, write_guard_slot};

verus! {

/// The two states of the lock: a closed sum, so the stored state is always
/// exactly one of them.
#[derive(Clone, Copy, Debug, PartialEq, Eq, Structural)]
pub enum GuardState {
    Unlocked,
    Locked,
}

/// The one failure the guard can raise: the guarded section is already
/// active, so the call is a reentrant one.
#[derive(Clone, Debug, PartialEq, Eq, Structural)]
pub enum ReentrancyError {
    ReentrantCall,
}

/// How a stored slot value reads as a lock state: `Some(true)` is Locked,
/// everything else — `Some(false)` or an absent value — is Unlocked.
pub open spec fn state_of(slot: Option<bool>) -> GuardState {
    if slot == Some(true) {
        GuardState::Locked
    } else {
        GuardState::Unlocked
    }
}

/// The state after an acquisition attempt: an Unlocked guard is taken, a
/// Locked one is left as it was.
pub open spec fn acquire_next(s: GuardState) -> GuardState {
    match s {
        GuardState::Unlocked => GuardState::Locked,
        GuardState::Locked => s,
    }
}

/// The state after a release: always Unlocked, whatever held before.
pub open spec fn release_next(s: GuardState) -> GuardState {
    GuardState::Unlocked
}

/// The one read path that turns a stored slot value into a `GuardState`,
/// treating an absent value as Unlocked.
pub fn decode_state(slot: Option<bool>) -> (s: GuardState)
    ensures
        s == state_of(slot),
{
    match slot {
        Some(true) => GuardState::Locked,
        _ => GuardState::Unlocked,
    }
}

pub struct ReentrancyGuard;

impl ReentrancyGuard {
    /// Enter the guarded section: fails with `ReentrantCall` and writes
    /// nothing when the lock is already held, otherwise commits Locked to
    /// storage and succeeds.
    pub fn enter(env: &mut Env) -> (r: Result<(), ReentrancyError>)
        ensures
            state_of(guard_slot(*final(env)))
                == acquire_next(state_of(guard_slot(*old(env)))),
            r is Ok <==> state_of(guard_slot(*old(env))) == GuardState::Unlocked,
            r is Ok ==> guard_slot(*final(env)) == Some(true),
            r matches Err(e) ==> e == ReentrancyError::ReentrantCall
                && guard_slot(*final(env)) == guard_slot(*old(env)),
    {
        let current = read_guard_slot(env);
        let state = decode_state(current);
        if state == GuardState::Locked {
            return Err(ReentrancyError::ReentrantCall);
        }
        write_guard_slot(env, true);
        Ok(())
    }

    /// Exit the guarded section: commits Unlocked to storage, whatever the
    /// state was, and cannot fail.
    pub fn exit(env: &mut Env)
        ensures
            guard_slot(*final(env)) == Some(false),
            state_of(guard_slot(*final(env)))
                == release_next(state_of(guard_slot(*old(env)))),
    {
        write_guard_slot(env, false);
    }

    /// Report whether the lock is held, reading the committed state and
    /// changing nothing.
    pub fn is_locked(env: &Env) -> (r: bool)
        ensures
            r == (state_of(guard_slot(*env)) == GuardState::Locked),
    {
        let state = decode_state(read_guard_slot(env));
        state == GuardState::Locked
    }
}

/// Run a unit of work inside the guard: acquire the lock, and if that fails
/// return `ReentrantCall` without running the work; otherwise run the work,
/// release the lock unconditionally — also when the work itself failed — and
/// hand the work's result back.
pub fn guarded<T, E, F: FnOnce() -> Result<T, E>>(env: &mut Env, work: F)
    -> (r: Result<Result<T, E>, ReentrancyError>)
    requires
        call_requires(work, ()),
    ensures
        r is Ok <==> state_of(guard_slot(*old(env))) == GuardState::Unlocked,
        r is Ok ==> guard_slot(*final(env)) == Some(false),
        r matches Ok(inner) ==> call_ensures(work, (), inner),
        r matches Err(e) ==> e == ReentrancyError::ReentrantCall
            && guard_slot(*final(env)) == guard_slot(*old(env)),
{
    match ReentrancyGuard::enter(env) {
        Err(e) => Err(e),
        Ok(()) => {
            let inner = work();
            ReentrancyGuard::exit(env);
            Ok(inner)
        },
    }
}

/// Law: every value the slot can hold reads as exactly one of the two lock
/// states; in particular a slot that was never written reads as Unlocked,
/// never as an error.
pub proof fn lemma_state_always_valid(slot: Option<bool>)
    ensures
        state_of(slot) == GuardState::Unlocked || state_of(slot) == GuardState::Locked,
        slot is None ==> state_of(slot) == GuardState::Unlocked,
{
}

/// Law: acquiring a guard that starts Unlocked and then releasing it returns
/// the state to exactly what it was before the acquisition.
pub proof fn lemma_acquire_release_round_trip(s: GuardState)
    requires
        s == GuardState::Unlocked,
    ensures
        release_next(acquire_next(s)) == s,
{
}

} // verus!
