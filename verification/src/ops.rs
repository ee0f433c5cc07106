//! The bond-position state machine: one function per public operation.
//!
//! Every operation settles the pool and the caller's ledger up to "now",
//! decays and re-bases the liveliness score against the pre-mutation stake,
//! and only then applies the position-level transition and adjusts the
//! aggregate totals. All checks run before the first mutation, so an
//! operation either commits every mutation or none: a precondition or
//! arithmetic failure returns an error with all records untouched.

use vstd::prelude::*;

use crate::asset::{asset_id_of, bytes_eq, clone_bytes, derive_asset_id};
use crate::constants::{DIVISION_SAFETY_CONST, MAX_PERCENT};
use crate::errors::Errors;
use crate::math::mul_div_floor;
use crate::rewards::{
    compute_weighted_liveliness_decay, compute_weighted_liveliness_new, settle_fits, settle_ledger,
    settle_share, settle_value, spec_decay, spec_decayed_score, spec_rebased_score,
    tick_transition, update_address_claimable_rewards,
};
use crate::score::{compute_bond_score, compute_discounted_claimable, spec_bond_score, spec_discounted};
use crate::states::{AddressBondsRewards, AprCap, Bond, BondConfig, RewardsConfig, State, VaultConfig};

verus! {

// ------------------------------------------------------------------
// Shared pieces
// ------------------------------------------------------------------

/// The liveliness decay of a ledger can be computed: the clock has not run
/// backwards, a lock period is configured, and the scaled fraction fits.
pub open spec fn decay_fits(l: AddressBondsRewards, now: u64, lock_period: u64) -> bool {
    &&& lock_period > 0
    &&& now >= l.last_update_timestamp
    &&& spec_decay(l.last_update_timestamp, now, lock_period) <= u64::MAX
}

/// A ledger's liveliness score decayed down to `now`.
pub open spec fn spec_ledger_decayed(l: AddressBondsRewards, now: u64, lock_period: u64) -> int
    recommends
        decay_fits(l, now, lock_period),
{
    spec_decayed_score(
        l.weighted_liveliness_score,
        spec_decay(l.last_update_timestamp, now, lock_period) as u64,
    )
}

/// The ledger's decay down to `now`, or an arithmetic error leaving the
/// caller free to abort before any mutation.
fn decay_checked(last_update: u64, now: u64, lock_period: u64) -> (r: Result<u64, Errors>)
    ensures
        r is Ok <==> (lock_period > 0 && now >= last_update && spec_decay(
            last_update,
            now,
            lock_period,
        ) <= u64::MAX),
        r is Ok ==> r->Ok_0 == spec_decay(last_update, now, lock_period),
        r is Err ==> r->Err_0 == Errors::ArithmeticOverflow,
{
    if lock_period == 0 || now < last_update {
        return Err(Errors::ArithmeticOverflow);
    }
    match mul_div_floor(now - last_update, DIVISION_SAFETY_CONST, lock_period) {
        Some(v) => Ok(v),
        None => Err(Errors::ArithmeticOverflow),
    }
}

/// The liveliness weight an unexpired position removes when its stake
/// leaves: its amount scaled by the remaining lock fraction, in basis
/// points. An already unlockable position removes no weight.
pub open spec fn spec_weight_removed(
    bond_amount: u64,
    unbond_timestamp: u64,
    now: u64,
    lock_period: u64,
) -> int {
    if now < unbond_timestamp {
        (bond_amount * (unbond_timestamp - now) / (lock_period as int)) * MAX_PERCENT
    } else {
        0
    }
}

/// The weight removal can be computed without overflow.
pub open spec fn weight_removed_fits(
    bond_amount: u64,
    unbond_timestamp: u64,
    now: u64,
    lock_period: u64,
) -> bool {
    now >= unbond_timestamp || {
        &&& bond_amount * (unbond_timestamp - now) / (lock_period as int) <= u64::MAX
        &&& spec_weight_removed(bond_amount, unbond_timestamp, now, lock_period) <= u64::MAX
    }
}

fn weight_removed(bond_amount: u64, unbond_timestamp: u64, now: u64, lock_period: u64) -> (r:
    Result<u64, Errors>)
    requires
        lock_period > 0,
    ensures
        r is Ok <==> weight_removed_fits(bond_amount, unbond_timestamp, now, lock_period),
        r is Ok ==> r->Ok_0 == spec_weight_removed(bond_amount, unbond_timestamp, now, lock_period),
        r is Err ==> r->Err_0 == Errors::ArithmeticOverflow,
{
    if now >= unbond_timestamp {
        return Ok(0);
    }
    let q = match mul_div_floor(bond_amount, unbond_timestamp - now, lock_period) {
        Some(v) => v,
        None => {
            return Err(Errors::ArithmeticOverflow);
        },
    };
    match q.checked_mul(MAX_PERCENT) {
        Some(v) => Ok(v),
        None => Err(Errors::ArithmeticOverflow),
    }
}

// ------------------------------------------------------------------
// Constructors
// ------------------------------------------------------------------

/// A fresh bond configuration, created inactive.
pub fn create_bond_config(
    index: u8,
    merkle_tree: Vec<u8>,
    lock_period: u64,
    bond_amount: u64,
    withdraw_penalty: u64,
) -> (r: BondConfig)
    requires
        merkle_tree@.len() == 32,
        withdraw_penalty <= MAX_PERCENT,
    ensures
        r.wf(),
        r.index == index,
        r.bond_state is Inactive,
        r.merkle_tree@ == merkle_tree@,
        r.lock_period == lock_period,
        r.bond_amount == bond_amount,
        r.withdraw_penalty == withdraw_penalty,
{
    BondConfig {
        index,
        bond_state: State::Inactive,
        merkle_tree,
        lock_period,
        bond_amount,
        withdraw_penalty,
    }
}

/// A fresh reward pool, created inactive with an empty reserve.
pub fn initialize_rewards_config(rewards_per_slot: u64, max_apr: AprCap) -> (r: RewardsConfig)
    ensures
        r.rewards_state is Inactive,
        r.rewards_reserve == 0,
        r.accumulated_rewards == 0,
        r.rewards_per_slot == rewards_per_slot,
        r.rewards_per_share == 0,
        r.last_reward_slot == 0,
        r.max_apr == max_apr,
{
    RewardsConfig {
        rewards_state: State::Inactive,
        rewards_reserve: 0,
        accumulated_rewards: 0,
        rewards_per_slot,
        rewards_per_share: 0,
        last_reward_slot: 0,
        max_apr,
    }
}

/// Creates the bond configuration and the reward pool together, both
/// inactive until an admin activates them.
pub fn initialize_contract(
    index: u8,
    merkle_tree: Vec<u8>,
    lock_period: u64,
    bond_amount: u64,
    withdraw_penalty: u64,
    rewards_per_slot: u64,
    max_apr: AprCap,
) -> (r: (BondConfig, RewardsConfig))
    requires
        merkle_tree@.len() == 32,
        withdraw_penalty <= MAX_PERCENT,
    ensures
        r.0.wf(),
        r.0.index == index,
        r.0.bond_state is Inactive,
        r.0.merkle_tree@ == merkle_tree@,
        r.0.lock_period == lock_period,
        r.0.bond_amount == bond_amount,
        r.0.withdraw_penalty == withdraw_penalty,
        r.1.rewards_state is Inactive,
        r.1.rewards_reserve == 0,
        r.1.accumulated_rewards == 0,
        r.1.rewards_per_slot == rewards_per_slot,
        r.1.rewards_per_share == 0,
        r.1.last_reward_slot == 0,
        r.1.max_apr == max_apr,
{
    let bond_config = create_bond_config(
        index,
        merkle_tree,
        lock_period,
        bond_amount,
        withdraw_penalty,
    );
    let rewards_config = initialize_rewards_config(rewards_per_slot, max_apr);
    (bond_config, rewards_config)
}

/// A fresh vault with nothing bonded and nothing penalized.
pub fn initialize_vault() -> (r: VaultConfig)
    ensures
        r.total_bond_amount == 0,
        r.total_penalized_amount == 0,
{
    VaultConfig { total_bond_amount: 0, total_penalized_amount: 0 }
}

/// A fresh staker ledger: no stake, no score, snapshot taken at the pool's
/// current index so nothing already distributed is owed to it.
pub fn initialize_address(
    rewards_config: &RewardsConfig,
    address: Vec<u8>,
    current_timestamp: u64,
) -> (r: AddressBondsRewards)
    ensures
        r.address@ == address@,
        r.address_total_bond_amount == 0,
        r.current_index == 0,
        r.last_update_timestamp == current_timestamp,
        r.address_rewards_per_share == rewards_config.rewards_per_share,
        r.claimable_amount == 0,
        r.weighted_liveliness_score == 0,
        r.vault_bond_id == 0,
{
    AddressBondsRewards {
        address,
        address_total_bond_amount: 0,
        current_index: 0,
        last_update_timestamp: current_timestamp,
        address_rewards_per_share: rewards_config.rewards_per_share,
        claimable_amount: 0,
        weighted_liveliness_score: 0,
        vault_bond_id: 0,
    }
}

// ------------------------------------------------------------------
// bond
// ------------------------------------------------------------------

/// The validation failure a bond request hits, in check order: the
/// configuration must be active, position ids are issued sequentially, and
/// the locked amount must equal the configured bond amount exactly — no
/// partial and no empty bonds.
pub open spec fn bond_precheck(
    config: BondConfig,
    l: AddressBondsRewards,
    bond_id: u16,
    amount: u64,
) -> Option<Errors> {
    if config.bond_state !is Active {
        Some(Errors::ProgramIsPaused)
    } else if l.current_index + 1 != bond_id {
        Some(Errors::WrongBondId)
    } else if amount != config.bond_amount || amount == 0 {
        Some(Errors::WrongAmount)
    } else {
        None
    }
}

/// Every intermediate value of a bond operation fits in a `u64`.
pub open spec fn bond_fits(
    config: BondConfig,
    p: RewardsConfig,
    v: VaultConfig,
    l: AddressBondsRewards,
    amount: u64,
    now: u64,
    current_slot: u64,
) -> bool {
    &&& decay_fits(l, now, config.lock_period)
    &&& amount * MAX_PERCENT <= u64::MAX
    &&& l.address_total_bond_amount + amount <= u64::MAX
    &&& v.total_bond_amount + amount <= u64::MAX
    &&& now + config.lock_period <= u64::MAX
    &&& settle_fits(p, l, v.total_bond_amount, current_slot)
}

/// Locks `amount` against the asset at leaf `nonce`, creating a fresh
/// active position: settles the pool and the ledger, re-bases the liveliness
/// score with the new stake counted at full weight, and raises the staker's
/// and the vault's totals.
pub fn bond(
    bond_config: &BondConfig,
    rewards_config: &mut RewardsConfig,
    vault_config: &mut VaultConfig,
    address_bonds_rewards: &mut AddressBondsRewards,
    bond_id: u16,
    amount: u64,
    nonce: u64,
    is_vault: bool,
    current_timestamp: u64,
    current_slot: u64,
) -> (r: Result<Bond, Errors>)
    requires
        bond_config.wf(),
        old(address_bonds_rewards).address_rewards_per_share
            <= old(rewards_config).rewards_per_share,
    ensures
        r is Err ==> *final(rewards_config) == *old(rewards_config)
            && *final(vault_config) == *old(vault_config)
            && *final(address_bonds_rewards) == *old(address_bonds_rewards),
        ({
            let pre = bond_precheck(*bond_config, *old(address_bonds_rewards), bond_id, amount);
            let fits = bond_fits(
                *bond_config,
                *old(rewards_config),
                *old(vault_config),
                *old(address_bonds_rewards),
                amount,
                current_timestamp,
                current_slot,
            );
            &&& (pre is Some ==> r == Err::<Bond, Errors>(pre->0))
            &&& (pre is None && !fits ==> r == Err::<Bond, Errors>(Errors::ArithmeticOverflow))
            &&& (pre is None && fits ==> r is Ok)
        }),
        r is Ok ==> ({
            let p0 = *old(rewards_config);
            let l0 = *old(address_bonds_rewards);
            let v0 = *old(vault_config);
            let total0 = v0.total_bond_amount;
            &&& *final(rewards_config) == tick_transition(p0, total0, current_slot)
            &&& *final(vault_config) == (VaultConfig {
                total_bond_amount: (total0 + amount) as u64,
                ..v0
            })
            &&& *final(address_bonds_rewards) == (AddressBondsRewards {
                address_total_bond_amount: (l0.address_total_bond_amount + amount) as u64,
                current_index: bond_id,
                last_update_timestamp: current_timestamp,
                address_rewards_per_share: tick_transition(p0, total0, current_slot).rewards_per_share,
                claimable_amount: (l0.claimable_amount + settle_share(
                    p0,
                    l0,
                    total0,
                    current_slot,
                )) as u64,
                weighted_liveliness_score: spec_rebased_score(
                    spec_ledger_decayed(l0, current_timestamp, bond_config.lock_period) as u64,
                    l0.address_total_bond_amount,
                    (l0.address_total_bond_amount + amount) as u64,
                    (amount * MAX_PERCENT) as u64,
                    0u64,
                ) as u64,
                ..l0
            })
            &&& r->Ok_0.state is Active
            &&& r->Ok_0.is_vault == is_vault
            &&& r->Ok_0.bond_timestamp == current_timestamp
            &&& r->Ok_0.unbond_timestamp == current_timestamp + bond_config.lock_period
            &&& r->Ok_0.bond_amount == amount
            &&& r->Ok_0.asset_id@ == asset_id_of(bond_config.merkle_tree@, nonce)
            &&& r->Ok_0.owner@ == l0.address@
            &&& r->Ok_0.parent_bond_id == 0
            &&& r->Ok_0.start_nonce == 0
            &&& r->Ok_0.end_nonce == 0
            &&& r->Ok_0.wf()
        }),
        final(address_bonds_rewards).address_rewards_per_share
            <= final(rewards_config).rewards_per_share,
{
    if bond_config.bond_state != State::Active {
        return Err(Errors::ProgramIsPaused);
    }
    if (address_bonds_rewards.current_index as u32) + 1 != (bond_id as u32) {
        return Err(Errors::WrongBondId);
    }
    if amount != bond_config.bond_amount || amount == 0 {
        return Err(Errors::WrongAmount);
    }
    let decay = match decay_checked(
        address_bonds_rewards.last_update_timestamp,
        current_timestamp,
        bond_config.lock_period,
    ) {
        Ok(v) => v,
        Err(e) => {
            return Err(e);
        },
    };
    let weight_added = match amount.checked_mul(MAX_PERCENT) {
        Some(v) => v,
        None => {
            return Err(Errors::ArithmeticOverflow);
        },
    };
    let new_ledger_total = match address_bonds_rewards.address_total_bond_amount.checked_add(
        amount,
    ) {
        Some(v) => v,
        None => {
            return Err(Errors::ArithmeticOverflow);
        },
    };
    let new_vault_total = match vault_config.total_bond_amount.checked_add(amount) {
        Some(v) => v,
        None => {
            return Err(Errors::ArithmeticOverflow);
        },
    };
    let unbond_timestamp = match current_timestamp.checked_add(bond_config.lock_period) {
        Some(v) => v,
        None => {
            return Err(Errors::ArithmeticOverflow);
        },
    };
    let total0 = vault_config.total_bond_amount;
    let decayed = compute_weighted_liveliness_decay(
        address_bonds_rewards.weighted_liveliness_score,
        decay,
    );
    match update_address_claimable_rewards(
        rewards_config,
        address_bonds_rewards,
        total0,
        current_slot,
    ) {
        Ok(u) => u,
        Err(e) => {
            return Err(e);
        },
    };
    let new_score = compute_weighted_liveliness_new(
        decayed,
        address_bonds_rewards.address_total_bond_amount,
        new_ledger_total,
        weight_added,
        0,
    );
    address_bonds_rewards.weighted_liveliness_score = new_score;
    address_bonds_rewards.last_update_timestamp = current_timestamp;
    address_bonds_rewards.address_total_bond_amount = new_ledger_total;
    address_bonds_rewards.current_index = bond_id;
    vault_config.total_bond_amount = new_vault_total;
    let asset_id = derive_asset_id(&bond_config.merkle_tree, nonce);
    let owner = clone_bytes(&address_bonds_rewards.address);
    Ok(
        Bond {
            state: State::Active,
            is_vault,
            bond_timestamp: current_timestamp,
            unbond_timestamp,
            bond_amount: amount,
            asset_id,
            owner,
            parent_bond_id: 0,
            start_nonce: 0,
            end_nonce: 0,
        },
    )
}

// ------------------------------------------------------------------
// renew
// ------------------------------------------------------------------

/// The validation failure a renew hits: the configuration and the position
/// must both be active.
pub open spec fn renew_precheck(config: BondConfig, b: Bond) -> Option<Errors> {
    if config.bond_state !is Active {
        Some(Errors::ProgramIsPaused)
    } else if b.state !is Active {
        Some(Errors::BondIsInactive)
    } else {
        None
    }
}

/// Every intermediate value of a renew fits in a `u64`.
pub open spec fn renew_fits(
    config: BondConfig,
    p: RewardsConfig,
    v: VaultConfig,
    l: AddressBondsRewards,
    b: Bond,
    now: u64,
    current_slot: u64,
) -> bool {
    &&& decay_fits(l, now, config.lock_period)
    &&& weight_removed_fits(b.bond_amount, b.unbond_timestamp, now, config.lock_period)
    &&& b.bond_amount * MAX_PERCENT <= u64::MAX
    &&& now + config.lock_period <= u64::MAX
    &&& settle_fits(p, l, v.total_bond_amount, current_slot)
}

/// The ledger score after a renewal: the position's stake leaves at its
/// current decayed weight and re-enters at full weight; the total is
/// unchanged.
pub open spec fn renew_score(
    config: BondConfig,
    l: AddressBondsRewards,
    b: Bond,
    now: u64,
) -> int {
    spec_rebased_score(
        spec_ledger_decayed(l, now, config.lock_period) as u64,
        l.address_total_bond_amount,
        l.address_total_bond_amount,
        (b.bond_amount * MAX_PERCENT) as u64,
        spec_weight_removed(b.bond_amount, b.unbond_timestamp, now, config.lock_period) as u64,
    )
}

/// Resets a position's decay clock without changing its principal: settles,
/// re-bases the ledger score treating the stake as removed at its decayed
/// weight and re-added at full weight, and restarts the lock window at
/// `current_timestamp`.
pub fn renew(
    bond_config: &BondConfig,
    rewards_config: &mut RewardsConfig,
    vault_config: &VaultConfig,
    address_bonds_rewards: &mut AddressBondsRewards,
    bond: &mut Bond,
    current_timestamp: u64,
    current_slot: u64,
) -> (r: Result<(), Errors>)
    requires
        bond_config.wf(),
        old(bond).wf(),
        old(address_bonds_rewards).address_rewards_per_share
            <= old(rewards_config).rewards_per_share,
    ensures
        r is Err ==> *final(rewards_config) == *old(rewards_config)
            && *final(address_bonds_rewards) == *old(address_bonds_rewards)
            && *final(bond) == *old(bond),
        ({
            let pre = renew_precheck(*bond_config, *old(bond));
            let fits = renew_fits(
                *bond_config,
                *old(rewards_config),
                *vault_config,
                *old(address_bonds_rewards),
                *old(bond),
                current_timestamp,
                current_slot,
            );
            &&& (pre is Some ==> r == Err::<(), Errors>(pre->0))
            &&& (pre is None && !fits ==> r == Err::<(), Errors>(Errors::ArithmeticOverflow))
            &&& (pre is None && fits ==> r is Ok)
        }),
        r is Ok ==> ({
            let p0 = *old(rewards_config);
            let l0 = *old(address_bonds_rewards);
            let total0 = vault_config.total_bond_amount;
            &&& *final(rewards_config) == tick_transition(p0, total0, current_slot)
            &&& *final(address_bonds_rewards) == (AddressBondsRewards {
                last_update_timestamp: current_timestamp,
                weighted_liveliness_score: renew_score(
                    *bond_config,
                    l0,
                    *old(bond),
                    current_timestamp,
                ) as u64,
                ..settle_ledger(p0, l0, total0, current_slot)
            })
            &&& *final(bond) == (Bond {
                bond_timestamp: current_timestamp,
                unbond_timestamp: (current_timestamp + bond_config.lock_period) as u64,
                ..*old(bond)
            })
            &&& final(bond).wf()
        }),
        final(address_bonds_rewards).address_rewards_per_share
            <= final(rewards_config).rewards_per_share,
{
    if bond_config.bond_state != State::Active {
        return Err(Errors::ProgramIsPaused);
    }
    if bond.state != State::Active {
        return Err(Errors::BondIsInactive);
    }
    let decay = match decay_checked(
        address_bonds_rewards.last_update_timestamp,
        current_timestamp,
        bond_config.lock_period,
    ) {
        Ok(v) => v,
        Err(e) => {
            return Err(e);
        },
    };
    let w_sub = match weight_removed(
        bond.bond_amount,
        bond.unbond_timestamp,
        current_timestamp,
        bond_config.lock_period,
    ) {
        Ok(v) => v,
        Err(e) => {
            return Err(e);
        },
    };
    let w_add = match bond.bond_amount.checked_mul(MAX_PERCENT) {
        Some(v) => v,
        None => {
            return Err(Errors::ArithmeticOverflow);
        },
    };
    let unbond_timestamp = match current_timestamp.checked_add(bond_config.lock_period) {
        Some(v) => v,
        None => {
            return Err(Errors::ArithmeticOverflow);
        },
    };
    let total0 = vault_config.total_bond_amount;
    let decayed = compute_weighted_liveliness_decay(
        address_bonds_rewards.weighted_liveliness_score,
        decay,
    );
    match update_address_claimable_rewards(
        rewards_config,
        address_bonds_rewards,
        total0,
        current_slot,
    ) {
        Ok(u) => u,
        Err(e) => {
            return Err(e);
        },
    };
    let new_score = compute_weighted_liveliness_new(
        decayed,
        address_bonds_rewards.address_total_bond_amount,
        address_bonds_rewards.address_total_bond_amount,
        w_add,
        w_sub,
    );
    address_bonds_rewards.weighted_liveliness_score = new_score;
    address_bonds_rewards.last_update_timestamp = current_timestamp;
    bond.bond_timestamp = current_timestamp;
    bond.unbond_timestamp = unbond_timestamp;
    Ok(())
}

// ------------------------------------------------------------------
// top_up
// ------------------------------------------------------------------

/// The validation failure a top-up hits: the configuration and the position
/// must be active, the position must be the staker's designated vault bond,
/// and it must actually be a vault position.
pub open spec fn top_up_precheck(
    config: BondConfig,
    l: AddressBondsRewards,
    b: Bond,
    bond_id: u16,
) -> Option<Errors> {
    if config.bond_state !is Active {
        Some(Errors::ProgramIsPaused)
    } else if b.state !is Active {
        Some(Errors::BondIsInactive)
    } else if l.vault_bond_id != bond_id || bond_id == 0 {
        Some(Errors::VaultBondIdMismatch)
    } else if !b.is_vault {
        Some(Errors::BondIsNotAVault)
    } else {
        None
    }
}

/// Every intermediate value of a top-up fits in a `u64`.
pub open spec fn top_up_fits(
    config: BondConfig,
    p: RewardsConfig,
    v: VaultConfig,
    l: AddressBondsRewards,
    b: Bond,
    amount: u64,
    now: u64,
    current_slot: u64,
) -> bool {
    &&& decay_fits(l, now, config.lock_period)
    &&& weight_removed_fits(b.bond_amount, b.unbond_timestamp, now, config.lock_period)
    &&& b.bond_amount + amount <= u64::MAX
    &&& (b.bond_amount + amount) * MAX_PERCENT <= u64::MAX
    &&& l.address_total_bond_amount + amount <= u64::MAX
    &&& v.total_bond_amount + amount <= u64::MAX
    &&& now + config.lock_period <= u64::MAX
    &&& settle_fits(p, l, v.total_bond_amount, current_slot)
}

/// The ledger score after a top-up: the existing stake leaves at its
/// decayed weight, and existing plus deposited stake re-enter at full
/// weight over the raised total.
pub open spec fn top_up_score(
    config: BondConfig,
    l: AddressBondsRewards,
    b: Bond,
    amount: u64,
    now: u64,
) -> int {
    spec_rebased_score(
        spec_ledger_decayed(l, now, config.lock_period) as u64,
        l.address_total_bond_amount,
        (l.address_total_bond_amount + amount) as u64,
        ((b.bond_amount + amount) * MAX_PERCENT) as u64,
        spec_weight_removed(b.bond_amount, b.unbond_timestamp, now, config.lock_period) as u64,
    )
}

/// Deposits `amount` more stake into a vault position: renews it and raises
/// the position's, the staker's and the vault's totals by the deposit.
pub fn top_up(
    bond_config: &BondConfig,
    rewards_config: &mut RewardsConfig,
    vault_config: &mut VaultConfig,
    address_bonds_rewards: &mut AddressBondsRewards,
    bond: &mut Bond,
    bond_id: u16,
    amount: u64,
    current_timestamp: u64,
    current_slot: u64,
) -> (r: Result<(), Errors>)
    requires
        bond_config.wf(),
        old(bond).wf(),
        old(address_bonds_rewards).address_rewards_per_share
            <= old(rewards_config).rewards_per_share,
    ensures
        r is Err ==> *final(rewards_config) == *old(rewards_config)
            && *final(vault_config) == *old(vault_config)
            && *final(address_bonds_rewards) == *old(address_bonds_rewards)
            && *final(bond) == *old(bond),
        ({
            let pre = top_up_precheck(
                *bond_config,
                *old(address_bonds_rewards),
                *old(bond),
                bond_id,
            );
            let fits = top_up_fits(
                *bond_config,
                *old(rewards_config),
                *old(vault_config),
                *old(address_bonds_rewards),
                *old(bond),
                amount,
                current_timestamp,
                current_slot,
            );
            &&& (pre is Some ==> r == Err::<(), Errors>(pre->0))
            &&& (pre is None && !fits ==> r == Err::<(), Errors>(Errors::ArithmeticOverflow))
            &&& (pre is None && fits ==> r is Ok)
        }),
        r is Ok ==> ({
            let p0 = *old(rewards_config);
            let l0 = *old(address_bonds_rewards);
            let v0 = *old(vault_config);
            let total0 = v0.total_bond_amount;
            &&& *final(rewards_config) == tick_transition(p0, total0, current_slot)
            &&& *final(vault_config) == (VaultConfig {
                total_bond_amount: (total0 + amount) as u64,
                ..v0
            })
            &&& *final(address_bonds_rewards) == (AddressBondsRewards {
                address_total_bond_amount: (l0.address_total_bond_amount + amount) as u64,
                last_update_timestamp: current_timestamp,
                weighted_liveliness_score: top_up_score(
                    *bond_config,
                    l0,
                    *old(bond),
                    amount,
                    current_timestamp,
                ) as u64,
                ..settle_ledger(p0, l0, total0, current_slot)
            })
            &&& *final(bond) == (Bond {
                bond_timestamp: current_timestamp,
                unbond_timestamp: (current_timestamp + bond_config.lock_period) as u64,
                bond_amount: (old(bond).bond_amount + amount) as u64,
                ..*old(bond)
            })
            &&& final(bond).wf()
        }),
        final(address_bonds_rewards).address_rewards_per_share
            <= final(rewards_config).rewards_per_share,
{
    if bond_config.bond_state != State::Active {
        return Err(Errors::ProgramIsPaused);
    }
    if bond.state != State::Active {
        return Err(Errors::BondIsInactive);
    }
    if address_bonds_rewards.vault_bond_id != bond_id || bond_id == 0 {
        return Err(Errors::VaultBondIdMismatch);
    }
    if !bond.is_vault {
        return Err(Errors::BondIsNotAVault);
    }
    let decay = match decay_checked(
        address_bonds_rewards.last_update_timestamp,
        current_timestamp,
        bond_config.lock_period,
    ) {
        Ok(v) => v,
        Err(e) => {
            return Err(e);
        },
    };
    let w_sub = match weight_removed(
        bond.bond_amount,
        bond.unbond_timestamp,
        current_timestamp,
        bond_config.lock_period,
    ) {
        Ok(v) => v,
        Err(e) => {
            return Err(e);
        },
    };
    let new_bond_amount = match bond.bond_amount.checked_add(amount) {
        Some(v) => v,
        None => {
            return Err(Errors::ArithmeticOverflow);
        },
    };
    let w_add = match new_bond_amount.checked_mul(MAX_PERCENT) {
        Some(v) => v,
        None => {
            return Err(Errors::ArithmeticOverflow);
        },
    };
    let new_ledger_total = match address_bonds_rewards.address_total_bond_amount.checked_add(
        amount,
    ) {
        Some(v) => v,
        None => {
            return Err(Errors::ArithmeticOverflow);
        },
    };
    let new_vault_total = match vault_config.total_bond_amount.checked_add(amount) {
        Some(v) => v,
        None => {
            return Err(Errors::ArithmeticOverflow);
        },
    };
    let unbond_timestamp = match current_timestamp.checked_add(bond_config.lock_period) {
        Some(v) => v,
        None => {
            return Err(Errors::ArithmeticOverflow);
        },
    };
    let total0 = vault_config.total_bond_amount;
    let decayed = compute_weighted_liveliness_decay(
        address_bonds_rewards.weighted_liveliness_score,
        decay,
    );
    match update_address_claimable_rewards(
        rewards_config,
        address_bonds_rewards,
        total0,
        current_slot,
    ) {
        Ok(u) => u,
        Err(e) => {
            return Err(e);
        },
    };
    let new_score = compute_weighted_liveliness_new(
        decayed,
        address_bonds_rewards.address_total_bond_amount,
        new_ledger_total,
        w_add,
        w_sub,
    );
    address_bonds_rewards.weighted_liveliness_score = new_score;
    address_bonds_rewards.last_update_timestamp = current_timestamp;
    address_bonds_rewards.address_total_bond_amount = new_ledger_total;
    vault_config.total_bond_amount = new_vault_total;
    bond.bond_timestamp = current_timestamp;
    bond.unbond_timestamp = unbond_timestamp;
    bond.bond_amount = new_bond_amount;
    Ok(())
}

// ------------------------------------------------------------------
// withdraw
// ------------------------------------------------------------------

/// The early-withdrawal penalty: a basis-point share of the position,
/// charged only while the position is still locked.
pub open spec fn spec_penalty(
    bond_amount: u64,
    unbond_timestamp: u64,
    now: u64,
    penalty_bps: u64,
) -> int {
    if now < unbond_timestamp {
        bond_amount * penalty_bps / (MAX_PERCENT as int)
    } else {
        0
    }
}

/// Every intermediate value of a withdrawal fits in a `u64`.
pub open spec fn withdraw_fits(
    config: BondConfig,
    p: RewardsConfig,
    v: VaultConfig,
    l: AddressBondsRewards,
    b: Bond,
    now: u64,
    current_slot: u64,
) -> bool {
    &&& decay_fits(l, now, config.lock_period)
    &&& weight_removed_fits(b.bond_amount, b.unbond_timestamp, now, config.lock_period)
    &&& (now < b.unbond_timestamp ==> b.bond_amount * config.withdraw_penalty <= u64::MAX)
    &&& v.total_penalized_amount + spec_penalty(
        b.bond_amount,
        b.unbond_timestamp,
        now,
        config.withdraw_penalty,
    ) <= u64::MAX
    &&& settle_fits(p, l, v.total_bond_amount, current_slot)
}

/// The ledger score after a withdrawal: the position's stake leaves at its
/// decayed weight and the total shrinks by its amount.
pub open spec fn withdraw_score(
    config: BondConfig,
    l: AddressBondsRewards,
    b: Bond,
    now: u64,
) -> int {
    spec_rebased_score(
        spec_ledger_decayed(l, now, config.lock_period) as u64,
        l.address_total_bond_amount,
        (l.address_total_bond_amount - b.bond_amount) as u64,
        0u64,
        spec_weight_removed(b.bond_amount, b.unbond_timestamp, now, config.lock_period) as u64,
    )
}

/// Closes a position and pays its stake out, minus the early-withdrawal
/// penalty while it is still locked. The penalty goes to the vault's
/// penalized total — protocol revenue, never back to the reward reserve.
/// Returns the amount to pay out.
pub fn withdraw(
    bond_config: &BondConfig,
    rewards_config: &mut RewardsConfig,
    vault_config: &mut VaultConfig,
    address_bonds_rewards: &mut AddressBondsRewards,
    bond: &mut Bond,
    current_timestamp: u64,
    current_slot: u64,
) -> (r: Result<u64, Errors>)
    requires
        bond_config.wf(),
        old(bond).wf(),
        old(address_bonds_rewards).address_rewards_per_share
            <= old(rewards_config).rewards_per_share,
        old(bond).state is Active ==> old(bond).bond_amount <= old(
            address_bonds_rewards,
        ).address_total_bond_amount && old(bond).bond_amount <= old(vault_config).total_bond_amount,
    ensures
        r is Err ==> *final(rewards_config) == *old(rewards_config)
            && *final(vault_config) == *old(vault_config)
            && *final(address_bonds_rewards) == *old(address_bonds_rewards)
            && *final(bond) == *old(bond),
        ({
            let pre = renew_precheck(*bond_config, *old(bond));
            let fits = withdraw_fits(
                *bond_config,
                *old(rewards_config),
                *old(vault_config),
                *old(address_bonds_rewards),
                *old(bond),
                current_timestamp,
                current_slot,
            );
            &&& (pre is Some ==> r == Err::<u64, Errors>(pre->0))
            &&& (pre is None && !fits ==> r == Err::<u64, Errors>(Errors::ArithmeticOverflow))
            &&& (pre is None && fits ==> r is Ok)
        }),
        r is Ok ==> ({
            let p0 = *old(rewards_config);
            let l0 = *old(address_bonds_rewards);
            let v0 = *old(vault_config);
            let b0 = *old(bond);
            let total0 = v0.total_bond_amount;
            let penalty = spec_penalty(
                b0.bond_amount,
                b0.unbond_timestamp,
                current_timestamp,
                bond_config.withdraw_penalty,
            );
            &&& r->Ok_0 == b0.bond_amount - penalty
            &&& *final(rewards_config) == tick_transition(p0, total0, current_slot)
            &&& *final(vault_config) == (VaultConfig {
                total_bond_amount: (total0 - b0.bond_amount) as u64,
                total_penalized_amount: (v0.total_penalized_amount + penalty) as u64,
            })
            &&& *final(address_bonds_rewards) == (AddressBondsRewards {
                address_total_bond_amount: (l0.address_total_bond_amount - b0.bond_amount) as u64,
                last_update_timestamp: current_timestamp,
                weighted_liveliness_score: withdraw_score(
                    *bond_config,
                    l0,
                    b0,
                    current_timestamp,
                ) as u64,
                ..settle_ledger(p0, l0, total0, current_slot)
            })
            &&& *final(bond) == (Bond {
                state: State::Inactive,
                unbond_timestamp: current_timestamp,
                bond_amount: 0,
                ..b0
            })
            &&& final(bond).wf()
        }),
        final(address_bonds_rewards).address_rewards_per_share
            <= final(rewards_config).rewards_per_share,
{
    if bond_config.bond_state != State::Active {
        return Err(Errors::ProgramIsPaused);
    }
    if bond.state != State::Active {
        return Err(Errors::BondIsInactive);
    }
    let decay = match decay_checked(
        address_bonds_rewards.last_update_timestamp,
        current_timestamp,
        bond_config.lock_period,
    ) {
        Ok(v) => v,
        Err(e) => {
            return Err(e);
        },
    };
    let w_sub = match weight_removed(
        bond.bond_amount,
        bond.unbond_timestamp,
        current_timestamp,
        bond_config.lock_period,
    ) {
        Ok(v) => v,
        Err(e) => {
            return Err(e);
        },
    };
    let penalty: u64;
    if current_timestamp < bond.unbond_timestamp {
        let scaled = match bond.bond_amount.checked_mul(bond_config.withdraw_penalty) {
            Some(v) => v,
            None => {
                return Err(Errors::ArithmeticOverflow);
            },
        };
        penalty = scaled / MAX_PERCENT;
        proof {
            assert(bond.bond_amount * bond_config.withdraw_penalty / (MAX_PERCENT as int)
                <= bond.bond_amount) by (nonlinear_arith)
                requires
                    0 <= bond_config.withdraw_penalty <= 10_000,
                    bond.bond_amount >= 0,
            ;
        }
    } else {
        penalty = 0;
    }
    let new_penalized = match vault_config.total_penalized_amount.checked_add(penalty) {
        Some(v) => v,
        None => {
            return Err(Errors::ArithmeticOverflow);
        },
    };
    let total0 = vault_config.total_bond_amount;
    let decayed = compute_weighted_liveliness_decay(
        address_bonds_rewards.weighted_liveliness_score,
        decay,
    );
    match update_address_claimable_rewards(
        rewards_config,
        address_bonds_rewards,
        total0,
        current_slot,
    ) {
        Ok(u) => u,
        Err(e) => {
            return Err(e);
        },
    };
    let amount = bond.bond_amount;
    let new_ledger_total = address_bonds_rewards.address_total_bond_amount - amount;
    let new_score = compute_weighted_liveliness_new(
        decayed,
        address_bonds_rewards.address_total_bond_amount,
        new_ledger_total,
        0,
        w_sub,
    );
    address_bonds_rewards.weighted_liveliness_score = new_score;
    address_bonds_rewards.last_update_timestamp = current_timestamp;
    address_bonds_rewards.address_total_bond_amount = new_ledger_total;
    vault_config.total_penalized_amount = new_penalized;
    vault_config.total_bond_amount = total0 - amount;
    bond.state = State::Inactive;
    bond.unbond_timestamp = current_timestamp;
    bond.bond_amount = 0;
    Ok(amount - penalty)
}

// ------------------------------------------------------------------
// claim_rewards
// ------------------------------------------------------------------

/// The validation failure a claim hits: the reward pool must be active, the
/// position must be the staker's designated vault bond, and it must be
/// active.
pub open spec fn claim_precheck(
    p: RewardsConfig,
    l: AddressBondsRewards,
    b: Bond,
    bond_id: u16,
) -> Option<Errors> {
    if p.rewards_state !is Active {
        Some(Errors::ProgramIsPaused)
    } else if l.vault_bond_id != bond_id || bond_id == 0 {
        Some(Errors::VaultBondIdMismatch)
    } else if b.state !is Active {
        Some(Errors::BondIsInactive)
    } else {
        None
    }
}

/// Every intermediate value of a claim fits in a `u64`.
pub open spec fn claim_fits(
    config: BondConfig,
    p: RewardsConfig,
    v: VaultConfig,
    l: AddressBondsRewards,
    now: u64,
    current_slot: u64,
) -> bool {
    &&& decay_fits(l, now, config.lock_period)
    &&& settle_fits(p, l, v.total_bond_amount, current_slot)
}

/// The amount a claim pays out: the settled claimable balance, discounted
/// by the vault position's instantaneous score.
pub open spec fn claim_credited(
    config: BondConfig,
    p: RewardsConfig,
    l: AddressBondsRewards,
    b: Bond,
    total: u64,
    now: u64,
    current_slot: u64,
) -> int {
    spec_discounted(
        settle_ledger(p, l, total, current_slot).claimable_amount,
        spec_bond_score(config.lock_period, now, b.unbond_timestamp) as u64,
    )
}

/// The ledger after a claim: settled, with the claimable balance paid out
/// (or forfeited) in full, the decay clock restarted and the score decayed.
pub open spec fn claim_ledger(
    config: BondConfig,
    p: RewardsConfig,
    l: AddressBondsRewards,
    total: u64,
    now: u64,
    current_slot: u64,
) -> AddressBondsRewards {
    AddressBondsRewards {
        claimable_amount: 0,
        last_update_timestamp: now,
        weighted_liveliness_score: spec_ledger_decayed(l, now, config.lock_period) as u64,
        ..settle_ledger(p, l, total, current_slot)
    }
}

/// Pays a staker's settled claimable balance out, discounted by the vault
/// position's remaining-lock score; the undiscounted remainder is forfeited,
/// not returned to the reserve. Since no stake changes hands, the liveliness
/// score only decays. Returns the amount to pay out.
pub fn claim_rewards(
    bond_config: &BondConfig,
    rewards_config: &mut RewardsConfig,
    vault_config: &VaultConfig,
    address_bonds_rewards: &mut AddressBondsRewards,
    bond: &Bond,
    bond_id: u16,
    current_timestamp: u64,
    current_slot: u64,
) -> (r: Result<u64, Errors>)
    requires
        bond_config.wf(),
        old(address_bonds_rewards).address_rewards_per_share
            <= old(rewards_config).rewards_per_share,
    ensures
        r is Err ==> *final(rewards_config) == *old(rewards_config)
            && *final(address_bonds_rewards) == *old(address_bonds_rewards),
        ({
            let pre = claim_precheck(
                *old(rewards_config),
                *old(address_bonds_rewards),
                *bond,
                bond_id,
            );
            let fits = claim_fits(
                *bond_config,
                *old(rewards_config),
                *vault_config,
                *old(address_bonds_rewards),
                current_timestamp,
                current_slot,
            );
            &&& (pre is Some ==> r == Err::<u64, Errors>(pre->0))
            &&& (pre is None && !fits ==> r == Err::<u64, Errors>(Errors::ArithmeticOverflow))
            &&& (pre is None && fits ==> r is Ok)
        }),
        r is Ok ==> ({
            let p0 = *old(rewards_config);
            let l0 = *old(address_bonds_rewards);
            let total0 = vault_config.total_bond_amount;
            &&& r->Ok_0 == claim_credited(
                *bond_config,
                p0,
                l0,
                *bond,
                total0,
                current_timestamp,
                current_slot,
            )
            &&& *final(rewards_config) == tick_transition(p0, total0, current_slot)
            &&& *final(address_bonds_rewards) == claim_ledger(
                *bond_config,
                p0,
                l0,
                total0,
                current_timestamp,
                current_slot,
            )
        }),
        final(address_bonds_rewards).address_rewards_per_share
            <= final(rewards_config).rewards_per_share,
{
    if rewards_config.rewards_state != State::Active {
        return Err(Errors::ProgramIsPaused);
    }
    if address_bonds_rewards.vault_bond_id != bond_id || bond_id == 0 {
        return Err(Errors::VaultBondIdMismatch);
    }
    if bond.state != State::Active {
        return Err(Errors::BondIsInactive);
    }
    let decay = match decay_checked(
        address_bonds_rewards.last_update_timestamp,
        current_timestamp,
        bond_config.lock_period,
    ) {
        Ok(v) => v,
        Err(e) => {
            return Err(e);
        },
    };
    let total0 = vault_config.total_bond_amount;
    let decayed = compute_weighted_liveliness_decay(
        address_bonds_rewards.weighted_liveliness_score,
        decay,
    );
    match update_address_claimable_rewards(
        rewards_config,
        address_bonds_rewards,
        total0,
        current_slot,
    ) {
        Ok(u) => u,
        Err(e) => {
            return Err(e);
        },
    };
    let score = compute_bond_score(
        bond_config.lock_period,
        current_timestamp,
        bond.unbond_timestamp,
    );
    let credited = compute_discounted_claimable(address_bonds_rewards.claimable_amount, score);
    address_bonds_rewards.claimable_amount = 0;
    address_bonds_rewards.last_update_timestamp = current_timestamp;
    address_bonds_rewards.weighted_liveliness_score = decayed;
    Ok(credited)
}

// ------------------------------------------------------------------
// stake_rewards
// ------------------------------------------------------------------

/// The validation failure a compound hits: configuration, pool and position
/// must be active, the position must be the staker's designated vault bond,
/// and a vault position at that.
pub open spec fn stake_precheck(
    config: BondConfig,
    p: RewardsConfig,
    l: AddressBondsRewards,
    b: Bond,
    bond_id: u16,
) -> Option<Errors> {
    if config.bond_state !is Active {
        Some(Errors::ProgramIsPaused)
    } else if p.rewards_state !is Active {
        Some(Errors::ProgramIsPaused)
    } else if l.vault_bond_id != bond_id || bond_id == 0 {
        Some(Errors::VaultBondIdMismatch)
    } else if b.state !is Active {
        Some(Errors::BondIsInactive)
    } else if !b.is_vault {
        Some(Errors::BondIsNotAVault)
    } else {
        None
    }
}

/// The amount a compound folds back into the position: the settled
/// claimable balance, discounted by the vault position's score.
pub open spec fn stake_credited(
    config: BondConfig,
    p: RewardsConfig,
    l: AddressBondsRewards,
    b: Bond,
    total: u64,
    now: u64,
    current_slot: u64,
) -> int {
    claim_credited(config, p, l, b, total, now, current_slot)
}

/// Every intermediate value of a compound fits in a `u64`.
pub open spec fn stake_fits(
    config: BondConfig,
    p: RewardsConfig,
    v: VaultConfig,
    l: AddressBondsRewards,
    b: Bond,
    now: u64,
    current_slot: u64,
) -> bool {
    let total = v.total_bond_amount;
    let credited = stake_credited(config, p, l, b, total, now, current_slot);
    &&& decay_fits(l, now, config.lock_period)
    &&& weight_removed_fits(b.bond_amount, b.unbond_timestamp, now, config.lock_period)
    &&& settle_fits(p, l, total, current_slot)
    &&& b.bond_amount + credited <= u64::MAX
    &&& (b.bond_amount + credited) * MAX_PERCENT <= u64::MAX
    &&& l.address_total_bond_amount + credited <= u64::MAX
    &&& v.total_bond_amount + credited <= u64::MAX
    &&& now + config.lock_period <= u64::MAX
}

/// The ledger score after a compound: the existing stake leaves at its
/// decayed weight and re-enters, together with the compounded reward, at
/// full weight over the raised total.
pub open spec fn stake_score(
    config: BondConfig,
    p: RewardsConfig,
    l: AddressBondsRewards,
    b: Bond,
    total: u64,
    now: u64,
    current_slot: u64,
) -> int {
    let credited = stake_credited(config, p, l, b, total, now, current_slot);
    spec_rebased_score(
        spec_ledger_decayed(l, now, config.lock_period) as u64,
        l.address_total_bond_amount,
        (l.address_total_bond_amount + credited) as u64,
        ((b.bond_amount + credited) * MAX_PERCENT) as u64,
        spec_weight_removed(b.bond_amount, b.unbond_timestamp, now, config.lock_period) as u64,
    )
}

/// Compounds a staker's settled, discounted claimable balance back into the
/// vault position instead of paying it out, renewing the lock window.
pub fn stake_rewards(
    bond_config: &BondConfig,
    rewards_config: &mut RewardsConfig,
    vault_config: &mut VaultConfig,
    address_bonds_rewards: &mut AddressBondsRewards,
    bond: &mut Bond,
    bond_id: u16,
    current_timestamp: u64,
    current_slot: u64,
) -> (r: Result<(), Errors>)
    requires
        bond_config.wf(),
        old(bond).wf(),
        old(address_bonds_rewards).address_rewards_per_share
            <= old(rewards_config).rewards_per_share,
    ensures
        r is Err ==> *final(rewards_config) == *old(rewards_config)
            && *final(vault_config) == *old(vault_config)
            && *final(address_bonds_rewards) == *old(address_bonds_rewards)
            && *final(bond) == *old(bond),
        ({
            let pre = stake_precheck(
                *bond_config,
                *old(rewards_config),
                *old(address_bonds_rewards),
                *old(bond),
                bond_id,
            );
            let fits = stake_fits(
                *bond_config,
                *old(rewards_config),
                *old(vault_config),
                *old(address_bonds_rewards),
                *old(bond),
                current_timestamp,
                current_slot,
            );
            &&& (pre is Some ==> r == Err::<(), Errors>(pre->0))
            &&& (pre is None && !fits ==> r == Err::<(), Errors>(Errors::ArithmeticOverflow))
            &&& (pre is None && fits ==> r is Ok)
        }),
        r is Ok ==> ({
            let p0 = *old(rewards_config);
            let l0 = *old(address_bonds_rewards);
            let v0 = *old(vault_config);
            let b0 = *old(bond);
            let total0 = v0.total_bond_amount;
            let credited = stake_credited(
                *bond_config,
                p0,
                l0,
                b0,
                total0,
                current_timestamp,
                current_slot,
            );
            &&& *final(rewards_config) == tick_transition(p0, total0, current_slot)
            &&& *final(vault_config) == (VaultConfig {
                total_bond_amount: (total0 + credited) as u64,
                ..v0
            })
            &&& *final(address_bonds_rewards) == (AddressBondsRewards {
                address_total_bond_amount: (l0.address_total_bond_amount + credited) as u64,
                last_update_timestamp: current_timestamp,
                claimable_amount: 0,
                weighted_liveliness_score: stake_score(
                    *bond_config,
                    p0,
                    l0,
                    b0,
                    total0,
                    current_timestamp,
                    current_slot,
                ) as u64,
                ..settle_ledger(p0, l0, total0, current_slot)
            })
            &&& *final(bond) == (Bond {
                bond_timestamp: current_timestamp,
                unbond_timestamp: (current_timestamp + bond_config.lock_period) as u64,
                bond_amount: (b0.bond_amount + credited) as u64,
                ..b0
            })
            &&& final(bond).wf()
        }),
        final(address_bonds_rewards).address_rewards_per_share
            <= final(rewards_config).rewards_per_share,
{
    if bond_config.bond_state != State::Active {
        return Err(Errors::ProgramIsPaused);
    }
    if rewards_config.rewards_state != State::Active {
        return Err(Errors::ProgramIsPaused);
    }
    if address_bonds_rewards.vault_bond_id != bond_id || bond_id == 0 {
        return Err(Errors::VaultBondIdMismatch);
    }
    if bond.state != State::Active {
        return Err(Errors::BondIsInactive);
    }
    if !bond.is_vault {
        return Err(Errors::BondIsNotAVault);
    }
    let decay = match decay_checked(
        address_bonds_rewards.last_update_timestamp,
        current_timestamp,
        bond_config.lock_period,
    ) {
        Ok(v) => v,
        Err(e) => {
            return Err(e);
        },
    };
    let w_sub = match weight_removed(
        bond.bond_amount,
        bond.unbond_timestamp,
        current_timestamp,
        bond_config.lock_period,
    ) {
        Ok(v) => v,
        Err(e) => {
            return Err(e);
        },
    };
    let total0 = vault_config.total_bond_amount;
    let (np, new_claimable) = match settle_value(
        rewards_config,
        address_bonds_rewards,
        total0,
        current_slot,
    ) {
        Ok(v) => v,
        Err(e) => {
            return Err(e);
        },
    };
    let score = compute_bond_score(
        bond_config.lock_period,
        current_timestamp,
        bond.unbond_timestamp,
    );
    let credited = compute_discounted_claimable(new_claimable, score);
    let new_bond_amount = match bond.bond_amount.checked_add(credited) {
        Some(v) => v,
        None => {
            return Err(Errors::ArithmeticOverflow);
        },
    };
    let w_add = match new_bond_amount.checked_mul(MAX_PERCENT) {
        Some(v) => v,
        None => {
            return Err(Errors::ArithmeticOverflow);
        },
    };
    let new_ledger_total = match address_bonds_rewards.address_total_bond_amount.checked_add(
        credited,
    ) {
        Some(v) => v,
        None => {
            return Err(Errors::ArithmeticOverflow);
        },
    };
    let new_vault_total = match vault_config.total_bond_amount.checked_add(credited) {
        Some(v) => v,
        None => {
            return Err(Errors::ArithmeticOverflow);
        },
    };
    let unbond_timestamp = match current_timestamp.checked_add(bond_config.lock_period) {
        Some(v) => v,
        None => {
            return Err(Errors::ArithmeticOverflow);
        },
    };
    let decayed = compute_weighted_liveliness_decay(
        address_bonds_rewards.weighted_liveliness_score,
        decay,
    );
    let new_score = compute_weighted_liveliness_new(
        decayed,
        address_bonds_rewards.address_total_bond_amount,
        new_ledger_total,
        w_add,
        w_sub,
    );
    *rewards_config = np;
    address_bonds_rewards.address_rewards_per_share = np.rewards_per_share;
    address_bonds_rewards.claimable_amount = 0;
    address_bonds_rewards.last_update_timestamp = current_timestamp;
    address_bonds_rewards.address_total_bond_amount = new_ledger_total;
    address_bonds_rewards.weighted_liveliness_score = new_score;
    vault_config.total_bond_amount = new_vault_total;
    bond.bond_timestamp = current_timestamp;
    bond.unbond_timestamp = unbond_timestamp;
    bond.bond_amount = new_bond_amount;
    Ok(())
}

// ------------------------------------------------------------------
// bond_range and the vault-bond designation
// ------------------------------------------------------------------

/// The validation failure a range bond hits: ids are issued sequentially
/// and the parent must be an active vault position.
pub open spec fn bond_range_precheck(
    l: AddressBondsRewards,
    parent: Bond,
    bond_id: u16,
) -> Option<Errors> {
    if l.current_index + 1 != bond_id {
        Some(Errors::WrongBondId)
    } else if !parent.is_vault {
        Some(Errors::ParentBondIsNotVault)
    } else if parent.state !is Active {
        Some(Errors::ParentBondIsNotActive)
    } else {
        None
    }
}

/// Creates a `Child` record granting claim rights over the leaf-nonce range
/// `[start_nonce, end_nonce)` against a funded parent vault position. Moves
/// no tokens and changes no totals.
pub fn bond_range(
    address_bonds_rewards: &mut AddressBondsRewards,
    parent_bond: &Bond,
    bond_id: u16,
    parent_bond_id: u16,
    start_nonce: u64,
    end_nonce: u64,
) -> (r: Result<Bond, Errors>)
    ensures
        r is Err ==> *final(address_bonds_rewards) == *old(address_bonds_rewards),
        ({
            let pre = bond_range_precheck(*old(address_bonds_rewards), *parent_bond, bond_id);
            &&& (pre is Some ==> r == Err::<Bond, Errors>(pre->0))
            &&& (pre is None ==> r is Ok)
        }),
        r is Ok ==> ({
            &&& *final(address_bonds_rewards) == (AddressBondsRewards {
                current_index: bond_id,
                ..*old(address_bonds_rewards)
            })
            &&& r->Ok_0.state is Child
            &&& !r->Ok_0.is_vault
            &&& r->Ok_0.bond_timestamp == 0
            &&& r->Ok_0.unbond_timestamp == 0
            &&& r->Ok_0.bond_amount == 0
            &&& r->Ok_0.asset_id@ == Seq::<u8>::empty()
            &&& r->Ok_0.owner@ == old(address_bonds_rewards).address@
            &&& r->Ok_0.parent_bond_id == parent_bond_id
            &&& r->Ok_0.start_nonce == start_nonce
            &&& r->Ok_0.end_nonce == end_nonce
            &&& r->Ok_0.wf()
        }),
{
    if (address_bonds_rewards.current_index as u32) + 1 != (bond_id as u32) {
        return Err(Errors::WrongBondId);
    }
    if !parent_bond.is_vault {
        return Err(Errors::ParentBondIsNotVault);
    }
    if parent_bond.state != State::Active {
        return Err(Errors::ParentBondIsNotActive);
    }
    address_bonds_rewards.current_index = bond_id;
    let owner = clone_bytes(&address_bonds_rewards.address);
    let asset_id: Vec<u8> = Vec::new();
    Ok(
        Bond {
            state: State::Child,
            is_vault: false,
            bond_timestamp: 0,
            unbond_timestamp: 0,
            bond_amount: 0,
            asset_id,
            owner,
            parent_bond_id,
            start_nonce,
            end_nonce,
        },
    )
}

/// Designates `bond_id` as the staker's vault bond, provided the position's
/// asset id matches the one derived from the configured tree at `nonce`.
pub fn update_vault_bond(
    address_bonds_rewards: &mut AddressBondsRewards,
    bond: &Bond,
    bond_config: &BondConfig,
    bond_id: u16,
    nonce: u64,
) -> (r: Result<(), Errors>)
    requires
        bond_config.wf(),
    ensures
        r is Ok <==> bond.asset_id@ == asset_id_of(bond_config.merkle_tree@, nonce),
        r is Ok ==> *final(address_bonds_rewards) == (AddressBondsRewards {
            vault_bond_id: bond_id,
            ..*old(address_bonds_rewards)
        }),
        r is Err ==> *final(address_bonds_rewards) == *old(address_bonds_rewards) && r
            == Err::<(), Errors>(Errors::AssetIdMismatch),
{
    let asset_id = derive_asset_id(&bond_config.merkle_tree, nonce);
    if !bytes_eq(&asset_id, &bond.asset_id) {
        return Err(Errors::AssetIdMismatch);
    }
    address_bonds_rewards.vault_bond_id = bond_id;
    Ok(())
}

} // verus!
