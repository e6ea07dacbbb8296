//! The trusted boundary to the host's durable key-value store.
//!
//! The guard owns exactly one slot of the contract instance's storage, the
//! entry under the reserved symbol key `RE_GUARD`, and stores a single `bool`
//! flag there. `guard_slot` names what that slot holds on a given environment
//! handle; the two wrappers below are the only functions that touch it.

use vstd::prelude::*;
use soroban_sdk::{Env, Symbol};

verus! {

#[verifier::external_type_specification]
#[verifier::external_body]
pub struct ExEnv(Env);

/// What the guard's reserved instance-storage slot holds on this environment:
/// `None` when the slot was never written, `Some(flag)` after `flag` was
/// stored there. The hosting runtime keeps it durable across calls.
pub uninterp spec fn guard_slot(env: Env) -> Option<bool>;

/// Relies on soroban_sdk's `storage::Instance::get`: returns `None` when
/// nothing is stored under the key, otherwise the stored value. The reserved
/// key is written only by `write_guard_slot`, which stores a `bool`, so the
/// read converts without failing.
#[verifier::external_body]
pub(crate) fn read_guard_slot(env: &Env) -> (r: Option<bool>)
    ensures
        r == guard_slot(*env),
{
    env.storage().instance().get(&Symbol::new(env, "RE_GUARD"))
}

/// Relies on soroban_sdk's `storage::Instance::set`: stores the flag under
/// the reserved key, with read-after-write consistency within the call and
/// durability across calls.
#[verifier::external_body]
pub(crate) fn write_guard_slot(env: &mut Env, flag: bool)
    ensures
        guard_slot(*final(env)) == Some(flag),
{
    env.storage().instance().set(&Symbol::new(env, "RE_GUARD"), &flag);
}

} // verus!
