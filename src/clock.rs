use vstd::prelude::*;

verus! {

/// Relies on ic_cdk::api::time: the replica's current time in nanoseconds
/// since the Unix epoch. Nothing is assumed of the value. The call traps
/// when made outside a canister.
#[verifier::external_body]
pub(crate) fn canister_time() -> (r: u64) {
    ic_cdk::api::time()
}

} // verus!
