//! The reward accumulator and the liveliness ledger.
//!
//! The accumulator ticks elapsed slots into a monotonically non-decreasing
//! rewards-per-share index, bounded by an optional APR cap and by the funded
//! reserve. The liveliness ledger decays a staker's stake-weighted freshness
//! score linearly between touches and re-bases it whenever stake changes.
//!
//! Every exec function either commits exactly the transition its spec
//! function describes or, on an arithmetic failure, leaves all records
//! untouched.

use vstd::prelude::*;

use crate::constants::{DIVISION_SAFETY_CONST, MAX_PERCENT, SLOTS_IN_YEAR};
use crate::errors::Errors;
use crate::math::{mul_div_floor, spec_sat_add, spec_sat_mul, spec_sat_sub};
use crate::states::{AddressBondsRewards, AprCap, RewardsConfig, State};

verus! {

// ------------------------------------------------------------------
// Reward accumulator
// ------------------------------------------------------------------

/// A tick books nothing and advances nothing when the pool is inactive or
/// no slot has elapsed.
pub open spec fn tick_is_noop(p: RewardsConfig, current_slot: u64) -> bool {
    p.rewards_state !is Active || current_slot <= p.last_reward_slot
}

/// Reward released over the elapsed slots before any cap.
pub open spec fn tick_unbounded(p: RewardsConfig, current_slot: u64) -> int {
    p.rewards_per_slot * (current_slot - p.last_reward_slot)
}

/// Per-slot reward bound implied by an APR cap of `max_apr` basis points on
/// `amount` bonded stake, flooring after each division.
pub open spec fn spec_apr_bound_per_slot(max_apr: u64, amount: u64) -> int {
    amount * max_apr / (MAX_PERCENT as int) / (SLOTS_IN_YEAR as int)
}

/// Reward a tick attempts to book: the release for the elapsed slots,
/// capped by the APR bound when a cap is configured.
pub open spec fn tick_extra(p: RewardsConfig, total: u64, current_slot: u64) -> int {
    let unbounded = tick_unbounded(p, current_slot);
    match p.max_apr {
        AprCap::Uncapped => unbounded,
        AprCap::Capped(bps) => {
            let bound = spec_apr_bound_per_slot(bps, total) * (current_slot
                - p.last_reward_slot);
            if unbounded <= bound {
                unbounded
            } else {
                bound
            }
        },
    }
}

/// A tick books reward exactly when stake exists to distribute over, some
/// reward is owed, and the reserve can fund all of it.
pub open spec fn tick_books(p: RewardsConfig, total: u64, current_slot: u64) -> bool {
    &&& total > 0
    &&& 0 < tick_extra(p, total, current_slot) <= p.rewards_reserve
}

/// The index increment a booking tick applies.
pub open spec fn tick_increment(p: RewardsConfig, total: u64, current_slot: u64) -> int {
    tick_extra(p, total, current_slot) * DIVISION_SAFETY_CONST / (total as int)
}

/// Every intermediate value of the tick fits in a `u64`. A tick whose
/// arithmetic does not fit aborts with no state change.
pub open spec fn tick_fits(p: RewardsConfig, total: u64, current_slot: u64) -> bool {
    tick_is_noop(p, current_slot) || {
        &&& tick_unbounded(p, current_slot) <= u64::MAX
        &&& (p.max_apr matches AprCap::Capped(bps) ==> {
            &&& total * bps <= u64::MAX
            &&& spec_apr_bound_per_slot(bps, total) * (current_slot - p.last_reward_slot)
                <= u64::MAX
        })
        &&& (tick_books(p, total, current_slot) ==> {
            &&& p.rewards_per_share + tick_increment(p, total, current_slot) <= u64::MAX
            &&& p.accumulated_rewards + tick_extra(p, total, current_slot) <= u64::MAX
        })
    }
}

/// The pool after a tick at `current_slot` with `total` stake bonded: the
/// settled slot always advances, and when the tick books, the booked amount
/// moves from the reserve to the accumulated total while the index grows by
/// the booked amount scaled over the stake.
pub open spec fn tick_transition(p: RewardsConfig, total: u64, current_slot: u64) -> RewardsConfig
    recommends
        tick_fits(p, total, current_slot),
{
    if tick_is_noop(p, current_slot) {
        p
    } else if tick_books(p, total, current_slot) {
        let extra = tick_extra(p, total, current_slot);
        (RewardsConfig {
            rewards_per_share: (p.rewards_per_share + tick_increment(p, total, current_slot))
                as u64,
            rewards_reserve: (p.rewards_reserve - extra) as u64,
            accumulated_rewards: (p.accumulated_rewards + extra) as u64,
            last_reward_slot: current_slot,
            ..p
        })
    } else {
        (RewardsConfig { last_reward_slot: current_slot, ..p })
    }
}

/// Per-slot reward amount allowed by an APR cap of `max_apr` basis points
/// on `amount` bonded stake.
pub fn get_amount_apr_bounded(max_apr: u64, amount: u64) -> (r: u64)
    requires
        amount * max_apr <= u64::MAX,
    ensures
        r == spec_apr_bound_per_slot(max_apr, amount),
{
    amount * max_apr / MAX_PERCENT / SLOTS_IN_YEAR
}

/// Computes the pool state after a tick without committing it.
fn tick_value(p: &RewardsConfig, total: u64, current_slot: u64) -> (r: Result<
    RewardsConfig,
    Errors,
>)
    ensures
        r is Ok <==> tick_fits(*p, total, current_slot),
        r is Ok ==> r->Ok_0 == tick_transition(*p, total, current_slot),
        r is Err ==> r->Err_0 == Errors::ArithmeticOverflow,
{
    if p.rewards_state != State::Active || current_slot <= p.last_reward_slot {
        return Ok(*p);
    }
    let diff = current_slot - p.last_reward_slot;
    let unbounded = match p.rewards_per_slot.checked_mul(diff) {
        Some(v) => v,
        None => {
            return Err(Errors::ArithmeticOverflow);
        },
    };
    let extra: u64 = match p.max_apr {
        AprCap::Uncapped => unbounded,
        AprCap::Capped(bps) => {
            if total.checked_mul(bps).is_none() {
                return Err(Errors::ArithmeticOverflow);
            }
            let per_slot_bound = get_amount_apr_bounded(bps, total);
            let bound = match per_slot_bound.checked_mul(diff) {
                Some(v) => v,
                None => {
                    return Err(Errors::ArithmeticOverflow);
                },
            };
            if unbounded <= bound {
                unbounded
            } else {
                bound
            }
        },
    };
    if total > 0 && extra > 0 && extra <= p.rewards_reserve {
        let incr = match mul_div_floor(extra, DIVISION_SAFETY_CONST, total) {
            Some(v) => v,
            None => {
                return Err(Errors::ArithmeticOverflow);
            },
        };
        let per_share = match p.rewards_per_share.checked_add(incr) {
            Some(v) => v,
            None => {
                return Err(Errors::ArithmeticOverflow);
            },
        };
        let accumulated = match p.accumulated_rewards.checked_add(extra) {
            Some(v) => v,
            None => {
                return Err(Errors::ArithmeticOverflow);
            },
        };
        Ok(
            RewardsConfig {
                rewards_per_share: per_share,
                rewards_reserve: p.rewards_reserve - extra,
                accumulated_rewards: accumulated,
                last_reward_slot: current_slot,
                ..*p
            },
        )
    } else {
        Ok(RewardsConfig { last_reward_slot: current_slot, ..*p })
    }
}

/// Brings the pool's rewards-per-share index up to `current_slot`, booking
/// at most what the APR cap allows and the reserve can fund.
pub fn generate_aggregated_rewards(
    rewards_config: &mut RewardsConfig,
    total_bond_amount: u64,
    current_slot: u64,
) -> (r: Result<(), Errors>)
    ensures
        r is Ok <==> tick_fits(*old(rewards_config), total_bond_amount, current_slot),
        r is Ok ==> *final(rewards_config) == tick_transition(
            *old(rewards_config),
            total_bond_amount,
            current_slot,
        ),
        r is Err ==> *final(rewards_config) == *old(rewards_config) && r->Err_0
            == Errors::ArithmeticOverflow,
        final(rewards_config).rewards_per_share >= old(rewards_config).rewards_per_share,
{
    match tick_value(rewards_config, total_bond_amount, current_slot) {
        Ok(np) => {
            proof {
                lemma_tick_monotone(*rewards_config, total_bond_amount, current_slot);
            }
            *rewards_config = np;
            Ok(())
        },
        Err(e) => Err(e),
    }
}

/// Reward released since the pool's last settlement: zero when the pool is
/// inactive or no slot has elapsed, else the per-slot rate times the elapsed
/// slots, advancing the settled slot.
pub fn calculate_rewards_since_last_allocation(
    rewards_config: &mut RewardsConfig,
    current_slot: u64,
) -> (r: Result<u64, Errors>)
    ensures
        r is Ok <==> (tick_is_noop(*old(rewards_config), current_slot) || tick_unbounded(
            *old(rewards_config),
            current_slot,
        ) <= u64::MAX),
        tick_is_noop(*old(rewards_config), current_slot) ==> r == Ok::<u64, Errors>(0u64)
            && *final(rewards_config) == *old(rewards_config),
        !tick_is_noop(*old(rewards_config), current_slot) && r is Ok ==> r->Ok_0
            == tick_unbounded(*old(rewards_config), current_slot) && *final(rewards_config) == (
        RewardsConfig { last_reward_slot: current_slot, ..*old(rewards_config) }),
        r is Err ==> *final(rewards_config) == *old(rewards_config) && r->Err_0
            == Errors::ArithmeticOverflow,
{
    if rewards_config.rewards_state != State::Active {
        return Ok(0);
    }
    if current_slot <= rewards_config.last_reward_slot {
        return Ok(0);
    }
    let diff = current_slot - rewards_config.last_reward_slot;
    match rewards_config.rewards_per_slot.checked_mul(diff) {
        Some(v) => {
            rewards_config.last_reward_slot = current_slot;
            Ok(v)
        },
        None => Err(Errors::ArithmeticOverflow),
    }
}

// ------------------------------------------------------------------
// Liveliness ledger
// ------------------------------------------------------------------

/// Fraction of the lock period elapsed since the last touch, scaled by
/// `DIVISION_SAFETY_CONST`.
pub open spec fn spec_decay(last_update: u64, now: u64, lock_period: u64) -> int {
    (now - last_update) * DIVISION_SAFETY_CONST / (lock_period as int)
}

/// Fraction of `lock_period` elapsed between the two timestamps, scaled by
/// `DIVISION_SAFETY_CONST`.
pub fn compute_decay(last_update_timestamp: u64, current_timestamp: u64, lock_period: u64) -> (r:
    u64)
    requires
        current_timestamp >= last_update_timestamp,
        lock_period > 0,
        spec_decay(last_update_timestamp, current_timestamp, lock_period) <= u64::MAX,
    ensures
        r == spec_decay(last_update_timestamp, current_timestamp, lock_period),
{
    mul_div_floor(
        current_timestamp - last_update_timestamp,
        DIVISION_SAFETY_CONST,
        lock_period,
    ).unwrap()
}

/// A liveliness score after `decay` has elapsed: the decay saturates at
/// 100%, so the score bottoms at zero and never underflows.
pub open spec fn spec_decayed_score(score: u64, decay: u64) -> int {
    score * spec_sat_sub(DIVISION_SAFETY_CONST as int, decay as int) / (
    DIVISION_SAFETY_CONST as int)
}

/// Applies `decay` to a liveliness score; the result never exceeds the
/// score it decays.
pub fn compute_weighted_liveliness_decay(weighted_liveliness_score: u64, decay: u64) -> (r: u64)
    ensures
        r == spec_decayed_score(weighted_liveliness_score, decay),
        r <= weighted_liveliness_score,
{
    let factor = DIVISION_SAFETY_CONST.saturating_sub(decay);
    proof {
        assert(weighted_liveliness_score * factor / (DIVISION_SAFETY_CONST as int)
            <= weighted_liveliness_score) by (nonlinear_arith)
            requires
                0 <= factor <= 1_000_000_000,
                weighted_liveliness_score >= 0,
        ;
    }
    mul_div_floor(weighted_liveliness_score, factor, DIVISION_SAFETY_CONST).unwrap()
}

/// A re-based liveliness score: the decayed score weighted by the old total,
/// minus the weight removed, plus the weight added, averaged over the new
/// total. Each step saturates; no stake left means no score.
pub open spec fn spec_rebased_score(
    decayed: u64,
    before: u64,
    after: u64,
    w_add: u64,
    w_sub: u64,
) -> int {
    if after == 0 {
        0
    } else {
        spec_sat_add(spec_sat_sub(spec_sat_mul(decayed as int, before as int), w_sub as int),
            w_add as int) / (after as int)
    }
}

/// Re-bases a decayed liveliness score over a stake change from
/// `address_total_bond_amount_before` to `address_total_bond_amount_after`.
pub fn compute_weighted_liveliness_new(
    weighted_liveliness_score_decayed: u64,
    address_total_bond_amount_before: u64,
    address_total_bond_amount_after: u64,
    weight_to_be_added: u64,
    weight_to_be_subtracted: u64,
) -> (r: u64)
    ensures
        r == spec_rebased_score(
            weighted_liveliness_score_decayed,
            address_total_bond_amount_before,
            address_total_bond_amount_after,
            weight_to_be_added,
            weight_to_be_subtracted,
        ),
{
    if address_total_bond_amount_after == 0 {
        return 0;
    }
    assert((weighted_liveliness_score_decayed as u128) * (address_total_bond_amount_before
        as u128) <= u128::MAX) by (nonlinear_arith)
        requires
            weighted_liveliness_score_decayed <= u64::MAX,
            address_total_bond_amount_before <= u64::MAX,
    ;
    let p: u128 = (weighted_liveliness_score_decayed as u128) * (address_total_bond_amount_before
        as u128);
    let m: u64 = if p > u64::MAX as u128 {
        u64::MAX
    } else {
        p as u64
    };
    let s: u64 = m.saturating_sub(weight_to_be_subtracted);
    let a: u64 = s.saturating_add(weight_to_be_added);
    a / address_total_bond_amount_after
}

// ------------------------------------------------------------------
// Claim share and settlement
// ------------------------------------------------------------------

/// A staker's share of the rewards distributed since their last settlement:
/// their stake times the index delta, scaled back down. Zero when nothing
/// has ever been distributed or no stake is bonded.
pub open spec fn spec_address_share(
    accumulated_rewards: u64,
    rewards_per_share: u64,
    address_bond_amount: u64,
    address_rewards_per_share: u64,
    total_bond_amount: u64,
) -> int {
    if total_bond_amount == 0 || accumulated_rewards == 0 {
        0
    } else {
        address_bond_amount * (rewards_per_share - address_rewards_per_share) / (
        DIVISION_SAFETY_CONST as int)
    }
}

/// A staker's pending share of the distributed rewards.
pub fn calculate_address_share_in_rewards(
    accumulated_rewards: u64,
    rewards_per_share: u64,
    address_bond_amount: u64,
    address_rewards_per_share: u64,
    total_bond_amount: u64,
) -> (r: u64)
    requires
        address_rewards_per_share <= rewards_per_share,
        spec_address_share(
            accumulated_rewards,
            rewards_per_share,
            address_bond_amount,
            address_rewards_per_share,
            total_bond_amount,
        ) <= u64::MAX,
    ensures
        r == spec_address_share(
            accumulated_rewards,
            rewards_per_share,
            address_bond_amount,
            address_rewards_per_share,
            total_bond_amount,
        ),
{
    if total_bond_amount == 0 {
        return 0;
    }
    if accumulated_rewards == 0 {
        return 0;
    }
    let diff = rewards_per_share - address_rewards_per_share;
    mul_div_floor(address_bond_amount, diff, DIVISION_SAFETY_CONST).unwrap()
}

/// Every intermediate value of a settlement fits in a `u64`.
pub open spec fn settle_fits(
    p: RewardsConfig,
    l: AddressBondsRewards,
    total: u64,
    current_slot: u64,
) -> bool {
    &&& tick_fits(p, total, current_slot)
    &&& settle_share(p, l, total, current_slot) <= u64::MAX
    &&& l.claimable_amount + settle_share(p, l, total, current_slot) <= u64::MAX
}

/// The share a settlement credits: the staker's pending share against the
/// pool as it stands after the tick.
pub open spec fn settle_share(
    p: RewardsConfig,
    l: AddressBondsRewards,
    total: u64,
    current_slot: u64,
) -> int {
    let p1 = tick_transition(p, total, current_slot);
    spec_address_share(
        p1.accumulated_rewards,
        p1.rewards_per_share,
        l.address_total_bond_amount,
        l.address_rewards_per_share,
        total,
    )
}

/// The ledger after a settlement: the snapshot advances to the ticked
/// index and the pending share is credited. Nothing else changes.
pub open spec fn settle_ledger(
    p: RewardsConfig,
    l: AddressBondsRewards,
    total: u64,
    current_slot: u64,
) -> AddressBondsRewards {
    AddressBondsRewards {
        address_rewards_per_share: tick_transition(p, total, current_slot).rewards_per_share,
        claimable_amount: (l.claimable_amount + settle_share(p, l, total, current_slot)) as u64,
        ..l
    }
}

/// Computes a settlement without committing it: the ticked pool and the
/// staker's new claimable balance.
pub(crate) fn settle_value(
    rewards_config: &RewardsConfig,
    address_bonds_rewards: &AddressBondsRewards,
    total_bond_amount: u64,
    current_slot: u64,
) -> (r: Result<(RewardsConfig, u64), Errors>)
    requires
        address_bonds_rewards.address_rewards_per_share <= rewards_config.rewards_per_share,
    ensures
        r is Ok <==> settle_fits(
            *rewards_config,
            *address_bonds_rewards,
            total_bond_amount,
            current_slot,
        ),
        r is Ok ==> r->Ok_0.0 == tick_transition(*rewards_config, total_bond_amount, current_slot)
            && r->Ok_0.1 == (address_bonds_rewards.claimable_amount + settle_share(
            *rewards_config,
            *address_bonds_rewards,
            total_bond_amount,
            current_slot,
        )) as u64,
        r is Err ==> r->Err_0 == Errors::ArithmeticOverflow,
{
    let np = match tick_value(rewards_config, total_bond_amount, current_slot) {
        Ok(v) => v,
        Err(e) => {
            return Err(e);
        },
    };
    proof {
        lemma_tick_monotone(*rewards_config, total_bond_amount, current_slot);
    }
    let share: u64;
    if total_bond_amount == 0 || np.accumulated_rewards == 0 {
        share = 0;
    } else {
        let diff = np.rewards_per_share - address_bonds_rewards.address_rewards_per_share;
        share = match mul_div_floor(
            address_bonds_rewards.address_total_bond_amount,
            diff,
            DIVISION_SAFETY_CONST,
        ) {
            Some(v) => v,
            None => {
                return Err(Errors::ArithmeticOverflow);
            },
        };
    }
    match address_bonds_rewards.claimable_amount.checked_add(share) {
        Some(v) => Ok((np, v)),
        None => Err(Errors::ArithmeticOverflow),
    }
}

/// Settles a staker against the pool: ticks the pool up to `current_slot`,
/// credits the staker's pending share and advances their snapshot, or
/// changes nothing on an arithmetic failure.
pub fn update_address_claimable_rewards(
    rewards_config: &mut RewardsConfig,
    address_bonds_rewards: &mut AddressBondsRewards,
    total_bond_amount: u64,
    current_slot: u64,
) -> (r: Result<(), Errors>)
    requires
        old(address_bonds_rewards).address_rewards_per_share
            <= old(rewards_config).rewards_per_share,
    ensures
        r is Ok <==> settle_fits(
            *old(rewards_config),
            *old(address_bonds_rewards),
            total_bond_amount,
            current_slot,
        ),
        r is Ok ==> *final(rewards_config) == tick_transition(
            *old(rewards_config),
            total_bond_amount,
            current_slot,
        ) && *final(address_bonds_rewards) == settle_ledger(
            *old(rewards_config),
            *old(address_bonds_rewards),
            total_bond_amount,
            current_slot,
        ),
        r is Err ==> *final(rewards_config) == *old(rewards_config)
            && *final(address_bonds_rewards) == *old(address_bonds_rewards)
            && r->Err_0 == Errors::ArithmeticOverflow,
        final(address_bonds_rewards).address_rewards_per_share
            <= final(rewards_config).rewards_per_share,
{
    let (np, new_claimable) = match settle_value(
        rewards_config,
        address_bonds_rewards,
        total_bond_amount,
        current_slot,
    ) {
        Ok(v) => v,
        Err(e) => {
            return Err(e);
        },
    };
    *rewards_config = np;
    address_bonds_rewards.address_rewards_per_share = np.rewards_per_share;
    address_bonds_rewards.claimable_amount = new_claimable;
    Ok(())
}

// ------------------------------------------------------------------
// Laws of the accumulator
// ------------------------------------------------------------------

/// Law: the rewards-per-share index never decreases across a tick.
pub proof fn lemma_tick_monotone(p: RewardsConfig, total: u64, current_slot: u64)
    requires
        tick_fits(p, total, current_slot),
    ensures
        tick_transition(p, total, current_slot).rewards_per_share >= p.rewards_per_share,
{
    if !tick_is_noop(p, current_slot) && tick_books(p, total, current_slot) {
        assert(tick_increment(p, total, current_slot) >= 0) by (nonlinear_arith)
            requires
                tick_extra(p, total, current_slot) >= 0,
                total > 0,
                tick_increment(p, total, current_slot) == tick_extra(p, total, current_slot)
                    * DIVISION_SAFETY_CONST / (total as int),
        ;
    }
}

/// Law: a tick conserves funds: whatever leaves the reserve arrives, in
/// full, in the accumulated (distributed, unclaimed) total.
pub proof fn lemma_tick_conserves_funds(p: RewardsConfig, total: u64, current_slot: u64)
    requires
        tick_fits(p, total, current_slot),
    ensures
        ({
            let q = tick_transition(p, total, current_slot);
            q.rewards_reserve + q.accumulated_rewards == p.rewards_reserve + p.accumulated_rewards
        }),
{
}

/// Law: a tick is idempotent in the clock: immediately ticking again at the
/// same slot fits and books zero extra reward, changing nothing.
pub proof fn lemma_tick_idempotent(p: RewardsConfig, total: u64, current_slot: u64)
    requires
        tick_fits(p, total, current_slot),
    ensures
        tick_fits(tick_transition(p, total, current_slot), total, current_slot),
        tick_transition(tick_transition(p, total, current_slot), total, current_slot)
            == tick_transition(p, total, current_slot),
{
    let q = tick_transition(p, total, current_slot);
    assert(tick_is_noop(q, current_slot));
}

/// The pool reached by folding a sequence of ticks; each event pairs the
/// stake total in force with the slot observed.
pub open spec fn run_ticks(p: RewardsConfig, events: Seq<(u64, u64)>) -> RewardsConfig
    decreases events.len(),
{
    if events.len() == 0 {
        p
    } else {
        run_ticks(tick_transition(p, events[0].0, events[0].1), events.skip(1))
    }
}

/// Every tick of the sequence fits, step by step.
pub open spec fn ticks_fit(p: RewardsConfig, events: Seq<(u64, u64)>) -> bool
    decreases events.len(),
{
    events.len() == 0 || {
        &&& tick_fits(p, events[0].0, events[0].1)
        &&& ticks_fit(tick_transition(p, events[0].0, events[0].1), events.skip(1))
    }
}

/// Law: the rewards-per-share index is non-decreasing across any sequence
/// of ticks, whatever stake totals and slots they observe.
pub proof fn lemma_ticks_monotone(p: RewardsConfig, events: Seq<(u64, u64)>)
    requires
        ticks_fit(p, events),
    ensures
        run_ticks(p, events).rewards_per_share >= p.rewards_per_share,
    decreases events.len(),
{
    if events.len() > 0 {
        lemma_tick_monotone(p, events[0].0, events[0].1);
        lemma_ticks_monotone(tick_transition(p, events[0].0, events[0].1), events.skip(1));
    }
}

} // verus!
