//! Claiming and staking distributions. Both are accepted and, for now, do
//! nothing: settlement and staking are not part of the ledger.

use vstd::prelude::*;
use crate::accounts::{ClaimUbi, StakeUbi};
use crate::error::ErrorCode;

verus! {

/// Accepts the claim of a distribution by the caller. No record is read or
/// written.
pub fn claim_ubi(_ctx: &ClaimUbi, _zkp_proof: String, _category: String) -> (result: Result<
    (),
    ErrorCode,
>)
    ensures
        result is Ok,
{
    Ok(())
}

/// Accepts the staking of a distribution by the caller. No record is read or
/// written.
pub fn stake_ubi(_ctx: &StakeUbi) -> (result: Result<(), ErrorCode>)
    ensures
        result is Ok,
{
    Ok(())
}

} // verus!
