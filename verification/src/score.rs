//! The per-position score and the claim discount it drives.
//!
//! A single position's score decays linearly from (up to) 100% down to zero
//! at its unlock time. The division happens before the multiplication — the
//! floor of a floor — deliberately reproducing the ledger's exact order of
//! operations, even though multiplying first would be more precise.

use vstd::prelude::*;

use crate::constants::{FULL_SCORE_THRESHOLD, MAX_PERCENT};
use crate::math::mul_div_floor;

verus! {

/// Remaining-lock score of a position, in basis points: zero once unlocked
/// or when no lock period is configured, and zero again if the product
/// overflows. `MAX_PERCENT / lock_period` floors before multiplying.
pub open spec fn spec_bond_score(
    lock_period: u64,
    current_timestamp: u64,
    unbond_timestamp: u64,
) -> int {
    if current_timestamp >= unbond_timestamp || lock_period == 0 {
        0
    } else {
        let per = MAX_PERCENT as int / lock_period as int;
        if per * (unbond_timestamp - current_timestamp) > u64::MAX {
            0
        } else {
            per * (unbond_timestamp - current_timestamp)
        }
    }
}

/// Instantaneous score of a single position. A zero lock period yields zero
/// and never divides.
pub fn compute_bond_score(lock_period: u64, current_timestamp: u64, unbond_timestamp: u64) -> (r:
    u64)
    ensures
        r == spec_bond_score(lock_period, current_timestamp, unbond_timestamp),
        lock_period == 0 ==> r == 0,
{
    if current_timestamp >= unbond_timestamp {
        0
    } else {
        let difference = unbond_timestamp - current_timestamp;
        if lock_period == 0 {
            0
        } else {
            let div_result = MAX_PERCENT / lock_period;
            match div_result.checked_mul(difference) {
                Some(v) => v,
                None => 0,
            }
        }
    }
}

/// The amount actually paid out of a claimable balance: the full balance at
/// or above the full-score threshold, else the balance discounted by the
/// score, the remainder forfeited.
pub open spec fn spec_discounted(claimable: u64, score: u64) -> int {
    if score >= FULL_SCORE_THRESHOLD {
        claimable as int
    } else {
        claimable * score / (MAX_PERCENT as int)
    }
}

/// Applies the liveliness discount to a claimable balance. The result never
/// exceeds the balance it discounts.
pub fn compute_discounted_claimable(claimable: u64, score: u64) -> (r: u64)
    ensures
        r == spec_discounted(claimable, score),
        r <= claimable,
{
    if score >= FULL_SCORE_THRESHOLD {
        claimable
    } else {
        proof {
            assert(claimable * score / (MAX_PERCENT as int) <= claimable) by (nonlinear_arith)
                requires
                    0 <= score < 10_000,
                    claimable >= 0,
            ;
        }
        mul_div_floor(claimable, score, MAX_PERCENT).unwrap()
    }
}

} // verus!
