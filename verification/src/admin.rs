//! Administrative updates to the bond configuration and the reward pool.

use vstd::prelude::*;

use crate::constants::MAX_PERCENT;
use crate::errors::Errors;
use crate::states::{AprCap, BondConfig, RewardsConfig, State};

verus! {

/// Sets the bonding configuration's lifecycle state.
pub fn update_bond_state(bond_config: &mut BondConfig, state: State)
    ensures
        *final(bond_config) == (BondConfig { bond_state: state, ..*old(bond_config) }),
{
    bond_config.bond_state = state;
}

/// Opens the bonding configuration.
pub fn set_bond_state_active(bond_config: &mut BondConfig)
    ensures
        *final(bond_config) == (BondConfig { bond_state: State::Active, ..*old(bond_config) }),
{
    update_bond_state(bond_config, State::Active);
}

/// Pauses the bonding configuration.
pub fn set_bond_state_inactive(bond_config: &mut BondConfig)
    ensures
        *final(bond_config) == (BondConfig { bond_state: State::Inactive, ..*old(bond_config) }),
{
    update_bond_state(bond_config, State::Inactive);
}

/// Points the configuration at another merkle tree.
pub fn update_merkle_tree(bond_config: &mut BondConfig, merkle_tree: Vec<u8>)
    requires
        merkle_tree@.len() == 32,
    ensures
        final(bond_config).merkle_tree@ == merkle_tree@,
        final(bond_config).index == old(bond_config).index,
        final(bond_config).bond_state == old(bond_config).bond_state,
        final(bond_config).lock_period == old(bond_config).lock_period,
        final(bond_config).bond_amount == old(bond_config).bond_amount,
        final(bond_config).withdraw_penalty == old(bond_config).withdraw_penalty,
        old(bond_config).wf() ==> final(bond_config).wf(),
{
    bond_config.merkle_tree = merkle_tree;
}

/// Sets the lock period of future bonds and renewals.
pub fn update_lock_period(bond_config: &mut BondConfig, lock_period: u64)
    ensures
        *final(bond_config) == (BondConfig { lock_period, ..*old(bond_config) }),
{
    bond_config.lock_period = lock_period;
}

/// Sets the exact amount a new bond must lock.
pub fn update_bond_amount(bond_config: &mut BondConfig, bond_amount: u64)
    ensures
        *final(bond_config) == (BondConfig { bond_amount, ..*old(bond_config) }),
{
    bond_config.bond_amount = bond_amount;
}

/// Sets the early-withdrawal penalty; rejects anything over 100%.
pub fn update_withdraw_penalty(bond_config: &mut BondConfig, withdraw_penalty: u64) -> (r: Result<
    (),
    Errors,
>)
    ensures
        r is Ok <==> withdraw_penalty <= MAX_PERCENT,
        r is Ok ==> *final(bond_config) == (BondConfig {
            withdraw_penalty,
            ..*old(bond_config)
        }),
        r is Err ==> *final(bond_config) == *old(bond_config) && r == Err::<(), Errors>(
            Errors::WrongValue,
        ),
{
    if withdraw_penalty > MAX_PERCENT {
        return Err(Errors::WrongValue);
    }
    bond_config.withdraw_penalty = withdraw_penalty;
    Ok(())
}

/// Sets the reward pool's lifecycle state; activating it restarts reward
/// accrual from the current slot, so the paused gap earns nothing.
pub fn update_rewards_state(rewards_config: &mut RewardsConfig, state: State, current_slot: u64)
    ensures
        state is Active ==> *final(rewards_config) == (RewardsConfig {
            rewards_state: state,
            last_reward_slot: current_slot,
            ..*old(rewards_config)
        }),
        state !is Active ==> *final(rewards_config) == (RewardsConfig {
            rewards_state: state,
            ..*old(rewards_config)
        }),
{
    rewards_config.rewards_state = state;
    if state == State::Active {
        rewards_config.last_reward_slot = current_slot;
    }
}

/// Opens the reward pool, restarting accrual from the current slot.
pub fn set_rewards_state_active(rewards_config: &mut RewardsConfig, current_slot: u64)
    ensures
        *final(rewards_config) == (RewardsConfig {
            rewards_state: State::Active,
            last_reward_slot: current_slot,
            ..*old(rewards_config)
        }),
{
    update_rewards_state(rewards_config, State::Active, current_slot);
}

/// Pauses the reward pool.
pub fn set_rewards_state_inactive(rewards_config: &mut RewardsConfig, current_slot: u64)
    ensures
        *final(rewards_config) == (RewardsConfig {
            rewards_state: State::Inactive,
            ..*old(rewards_config)
        }),
{
    update_rewards_state(rewards_config, State::Inactive, current_slot);
}

/// Sets the reward units released per slot.
pub fn update_rewards_per_slot(rewards_config: &mut RewardsConfig, rewards_per_slot: u64)
    ensures
        *final(rewards_config) == (RewardsConfig { rewards_per_slot, ..*old(rewards_config) }),
{
    rewards_config.rewards_per_slot = rewards_per_slot;
}

/// Sets the APR cap policy.
pub fn update_max_apr(rewards_config: &mut RewardsConfig, max_apr: AprCap)
    ensures
        *final(rewards_config) == (RewardsConfig { max_apr, ..*old(rewards_config) }),
{
    rewards_config.max_apr = max_apr;
}

/// Funds the reward reserve with `amount` more units; the tokens themselves
/// move outside this core.
pub fn add_rewards(rewards_config: &mut RewardsConfig, amount: u64) -> (r: Result<(), Errors>)
    ensures
        r is Ok <==> old(rewards_config).rewards_reserve + amount <= u64::MAX,
        r is Ok ==> *final(rewards_config) == (RewardsConfig {
            rewards_reserve: (old(rewards_config).rewards_reserve + amount) as u64,
            ..*old(rewards_config)
        }),
        r is Err ==> *final(rewards_config) == *old(rewards_config) && r == Err::<(), Errors>(
            Errors::ArithmeticOverflow,
        ),
{
    match rewards_config.rewards_reserve.checked_add(amount) {
        Some(v) => {
            rewards_config.rewards_reserve = v;
            Ok(())
        },
        None => Err(Errors::ArithmeticOverflow),
    }
}

/// Defunds the reward reserve by `amount` units; fails when the reserve
/// does not hold that much.
pub fn remove_rewards(rewards_config: &mut RewardsConfig, amount: u64) -> (r: Result<(), Errors>)
    ensures
        r is Ok <==> amount <= old(rewards_config).rewards_reserve,
        r is Ok ==> *final(rewards_config) == (RewardsConfig {
            rewards_reserve: (old(rewards_config).rewards_reserve - amount) as u64,
            ..*old(rewards_config)
        }),
        r is Err ==> *final(rewards_config) == *old(rewards_config) && r == Err::<(), Errors>(
            Errors::NotEnoughBalance,
        ),
{
    if amount > rewards_config.rewards_reserve {
        return Err(Errors::NotEnoughBalance);
    }
    rewards_config.rewards_reserve = rewards_config.rewards_reserve - amount;
    Ok(())
}

} // verus!
