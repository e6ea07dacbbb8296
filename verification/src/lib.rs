//! A persisted reentrancy guard for a contract execution environment.
//!
//! The guard keeps a single binary lock in the contract instance's durable
//! storage, under one reserved key, so that an entry point can reject a call
//! that re-enters it while it is already executing. `ReentrancyGuard::enter`
//! takes the lock or fails with `ReentrancyError::ReentrantCall`,
//! `ReentrancyGuard::exit` releases it unconditionally, and
//! `ReentrancyGuard::is_locked` reports it without changing it. `guarded` runs
//! a unit of work between `enter` and `exit`, releasing the lock even when the
//! work fails.

pub mod storage;
pub mod guard;

pub use guard::{
    GuardState, ReentrancyError, ReentrancyGuard, decode_state, state_of, acquire_next,
    release_next, guarded, lemma_state_always_valid, lemma_acquire_release_round_trip,
};
