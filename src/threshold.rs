//! Fixed-point ratios of a stake bucket over the total delegated stake.
use crate::error::GovernanceError;
use vstd::prelude::*;

verus! {

/// Ratios are fixed-point numbers with nine decimal places.
pub const THRESHOLD_SCALING_FACTOR: u64 = 1_000_000_000;

/// The scaled ratio `stake / total_stake`, rounded down; zero when there is
/// no stake at all.
pub open spec fn spec_ratio(stake: int, total_stake: int) -> int {
    if total_stake == 0 {
        0
    } else {
        (stake * THRESHOLD_SCALING_FACTOR) / total_stake
    }
}

/// Whether the scaled ratio can be computed: the product fits in `u64` and
/// the quotient in `u32`.
pub open spec fn ratio_fits(stake: int, total_stake: int) -> bool {
    total_stake == 0 || (stake * THRESHOLD_SCALING_FACTOR <= u64::MAX && spec_ratio(stake, total_stake)
        <= u32::MAX)
}

/// Computes `stake * 10^9 / total_stake` as a `u32`, or zero when
/// `total_stake` is zero.
pub fn calculate_proposal_vote_threshold(stake: u64, total_stake: u64) -> (r: Result<
    u32,
    GovernanceError,
>)
    ensures
        r is Ok <==> ratio_fits(stake as int, total_stake as int),
        r matches Ok(v) ==> v as int == spec_ratio(stake as int, total_stake as int),
        r matches Err(e) ==> e == GovernanceError::ArithmeticOverflow,
{
    if total_stake == 0 {
        return Ok(0);
    }
    match stake.checked_mul(THRESHOLD_SCALING_FACTOR) {
        None => Err(GovernanceError::ArithmeticOverflow),
        Some(product) => {
            let q = product / total_stake;
            if q > u32::MAX as u64 {
                Err(GovernanceError::ArithmeticOverflow)
            } else {
                Ok(q as u32)
            }
        },
    }
}

} // verus!
