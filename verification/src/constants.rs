//! Protocol-wide numeric constants.

use vstd::prelude::*;

verus! {

/// Basis-point scale: 10_000 bps == 100%.
pub const MAX_PERCENT: u64 = 10_000;

/// Slots in a year, used to translate an APR cap into a per-slot bound.
pub const SLOTS_IN_YEAR: u64 = 78_840_000;

/// Fixed-point scale of the rewards-per-share accumulator.
pub const DIVISION_SAFETY_CONST: u64 = 1_000_000_000;

/// Liveliness score (in basis points) at or above which a claim is paid in
/// full rather than discounted.
pub const FULL_SCORE_THRESHOLD: u64 = 9_500;

} // verus!
