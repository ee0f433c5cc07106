use core_sol_bond_stake_sc::admin::{
    add_rewards, remove_rewards, set_rewards_state_active, set_rewards_state_inactive,
    update_rewards_state,
};
use core_sol_bond_stake_sc::constants::DIVISION_SAFETY_CONST;
use core_sol_bond_stake_sc::errors::Errors;
use core_sol_bond_stake_sc::ops::{initialize_address, initialize_rewards_config};
use core_sol_bond_stake_sc::rewards::{
    calculate_address_share_in_rewards, calculate_rewards_since_last_allocation,
    generate_aggregated_rewards, update_address_claimable_rewards,
};
use core_sol_bond_stake_sc::states::{AprCap, RewardsConfig, State};

fn active_pool(rewards_per_slot: u64, reserve: u64, max_apr: AprCap) -> RewardsConfig {
    let mut pool = initialize_rewards_config(rewards_per_slot, max_apr);
    add_rewards(&mut pool, reserve).unwrap();
    update_rewards_state(&mut pool, State::Active, 0);
    pool
}

#[test]
fn tick_books_rate_times_elapsed_slots() {
    // ratePerTick 100, no APR cap, reserve 10_000, totalBonded 1000,
    // 10 slots elapsed: extra 1000, index += 10^9, reserve 9000,
    // accumulated 1000.
    let mut pool = active_pool(100, 10_000, AprCap::Uncapped);
    generate_aggregated_rewards(&mut pool, 1_000, 10).unwrap();
    assert_eq!(pool.rewards_per_share, DIVISION_SAFETY_CONST);
    assert_eq!(pool.rewards_reserve, 9_000);
    assert_eq!(pool.accumulated_rewards, 1_000);
    assert_eq!(pool.last_reward_slot, 10);
}

#[test]
fn tick_twice_at_same_slot_books_nothing_more() {
    let mut pool = active_pool(100, 10_000, AprCap::Uncapped);
    generate_aggregated_rewards(&mut pool, 1_000, 10).unwrap();
    let snapshot = pool;
    generate_aggregated_rewards(&mut pool, 1_000, 10).unwrap();
    assert_eq!(pool.rewards_per_share, snapshot.rewards_per_share);
    assert_eq!(pool.rewards_reserve, snapshot.rewards_reserve);
    assert_eq!(pool.accumulated_rewards, snapshot.accumulated_rewards);
    assert_eq!(pool.last_reward_slot, snapshot.last_reward_slot);
}

#[test]
fn index_non_decreasing_across_ticks() {
    let mut pool = active_pool(7, 1_000_000, AprCap::Uncapped);
    let mut previous = pool.rewards_per_share;
    let slots = [3u64, 3, 10, 11, 400, 400, 1000];
    let totals = [0u64, 5, 5, 1000, 17, 0, 123456];
    for k in 0..slots.len() {
        generate_aggregated_rewards(&mut pool, totals[k], slots[k]).unwrap();
        assert!(pool.rewards_per_share >= previous);
        previous = pool.rewards_per_share;
    }
}

#[test]
fn tick_inactive_pool_is_a_noop() {
    let mut pool = initialize_rewards_config(100, AprCap::Uncapped);
    add_rewards(&mut pool, 10_000).unwrap();
    generate_aggregated_rewards(&mut pool, 1_000, 50).unwrap();
    assert_eq!(pool.rewards_per_share, 0);
    assert_eq!(pool.rewards_reserve, 10_000);
    assert_eq!(pool.accumulated_rewards, 0);
    assert_eq!(pool.last_reward_slot, 0);
}

#[test]
fn tick_with_no_stake_advances_but_books_nothing() {
    let mut pool = active_pool(100, 10_000, AprCap::Uncapped);
    generate_aggregated_rewards(&mut pool, 0, 10).unwrap();
    assert_eq!(pool.rewards_per_share, 0);
    assert_eq!(pool.rewards_reserve, 10_000);
    assert_eq!(pool.accumulated_rewards, 0);
    // Time still advances: the gap is not retroactively rewarded.
    assert_eq!(pool.last_reward_slot, 10);
}

#[test]
fn tick_beyond_reserve_books_nothing() {
    let mut pool = active_pool(100, 500, AprCap::Uncapped);
    // 10 slots would owe 1000, more than the 500 reserve: nothing books.
    generate_aggregated_rewards(&mut pool, 1_000, 10).unwrap();
    assert_eq!(pool.rewards_per_share, 0);
    assert_eq!(pool.rewards_reserve, 500);
    assert_eq!(pool.accumulated_rewards, 0);
    assert_eq!(pool.last_reward_slot, 10);
}

#[test]
fn tick_apr_cap_binds() {
    // 788_400_000_000 bonded at a 1% cap allows 100 per slot; the rate
    // alone would release 150 per slot. Ten slots: min(1500, 1000) = 1000.
    let mut pool = active_pool(150, 1_000_000, AprCap::Capped(100));
    let total: u64 = 788_400_000_000;
    generate_aggregated_rewards(&mut pool, total, 10).unwrap();
    assert_eq!(pool.accumulated_rewards, 1_000);
    assert_eq!(pool.rewards_reserve, 1_000_000 - 1_000);
    // 1000 * 10^9 / 788_400_000_000 floors to 1.
    assert_eq!(pool.rewards_per_share, 1);
}

#[test]
fn tick_capped_at_zero_books_nothing() {
    // An explicit zero cap is a real cap, not "uncapped".
    let mut pool = active_pool(150, 1_000_000, AprCap::Capped(0));
    generate_aggregated_rewards(&mut pool, 1_000, 10).unwrap();
    assert_eq!(pool.accumulated_rewards, 0);
    assert_eq!(pool.last_reward_slot, 10);
}

#[test]
fn tick_rate_overflow_is_rejected_without_mutation() {
    let mut pool = active_pool(u64::MAX, 10_000, AprCap::Uncapped);
    let r = generate_aggregated_rewards(&mut pool, 1_000, 3);
    assert_eq!(r, Err(Errors::ArithmeticOverflow));
    assert_eq!(pool.last_reward_slot, 0);
    assert_eq!(pool.rewards_reserve, 10_000);
}

#[test]
fn rewards_since_last_allocation_advances_slot() {
    let mut pool = active_pool(100, 0, AprCap::Uncapped);
    assert_eq!(calculate_rewards_since_last_allocation(&mut pool, 10), Ok(1_000));
    assert_eq!(pool.last_reward_slot, 10);
    // Same slot again: nothing elapsed, nothing changes.
    assert_eq!(calculate_rewards_since_last_allocation(&mut pool, 10), Ok(0));
    assert_eq!(pool.last_reward_slot, 10);
}

#[test]
fn rewards_since_last_allocation_inactive_is_zero() {
    let mut pool = initialize_rewards_config(100, AprCap::Uncapped);
    assert_eq!(calculate_rewards_since_last_allocation(&mut pool, 10), Ok(0));
    assert_eq!(pool.last_reward_slot, 0);
}

#[test]
fn address_share_is_stake_times_index_delta() {
    // totalBonded 500, index delta 10^9: 500 * 10^9 / 10^9 == 500.
    assert_eq!(
        calculate_address_share_in_rewards(1_000, DIVISION_SAFETY_CONST, 500, 0, 1_000),
        500
    );
}

#[test]
fn address_share_zero_without_distribution_or_stake() {
    assert_eq!(calculate_address_share_in_rewards(0, DIVISION_SAFETY_CONST, 500, 0, 1_000), 0);
    assert_eq!(calculate_address_share_in_rewards(1_000, DIVISION_SAFETY_CONST, 500, 0, 0), 0);
}

#[test]
fn settlement_credits_share_and_advances_snapshot() {
    let mut pool = active_pool(100, 10_000, AprCap::Uncapped);
    let mut ledger = initialize_address(&pool, vec![1u8; 32], 0);
    ledger.address_total_bond_amount = 500;
    update_address_claimable_rewards(&mut pool, &mut ledger, 1_000, 10).unwrap();
    // Pool ticked: index 10^9; the staker holds 500 of 1000 bonded.
    assert_eq!(ledger.claimable_amount, 500);
    assert_eq!(ledger.address_rewards_per_share, pool.rewards_per_share);
    // Settling again at the same slot credits nothing more.
    update_address_claimable_rewards(&mut pool, &mut ledger, 1_000, 10).unwrap();
    assert_eq!(ledger.claimable_amount, 500);
}

#[test]
fn add_and_remove_rewards_move_the_reserve() {
    let mut pool = initialize_rewards_config(100, AprCap::Uncapped);
    add_rewards(&mut pool, 700).unwrap();
    assert_eq!(pool.rewards_reserve, 700);
    remove_rewards(&mut pool, 200).unwrap();
    assert_eq!(pool.rewards_reserve, 500);
}

#[test]
fn remove_more_than_reserve_is_rejected() {
    let mut pool = initialize_rewards_config(100, AprCap::Uncapped);
    add_rewards(&mut pool, 100).unwrap();
    assert_eq!(remove_rewards(&mut pool, 101), Err(Errors::NotEnoughBalance));
    assert_eq!(pool.rewards_reserve, 100);
}

#[test]
fn add_rewards_overflow_is_rejected() {
    let mut pool = initialize_rewards_config(100, AprCap::Uncapped);
    add_rewards(&mut pool, u64::MAX).unwrap();
    assert_eq!(add_rewards(&mut pool, 1), Err(Errors::ArithmeticOverflow));
    assert_eq!(pool.rewards_reserve, u64::MAX);
}

#[test]
fn lifecycle_setters_flip_the_pool_state() {
    let mut pool = initialize_rewards_config(100, AprCap::Uncapped);
    set_rewards_state_active(&mut pool, 42);
    assert_eq!(pool.rewards_state.to_code(), 1);
    assert_eq!(pool.last_reward_slot, 42);
    set_rewards_state_inactive(&mut pool, 50);
    assert_eq!(pool.rewards_state.to_code(), 0);
    assert_eq!(pool.last_reward_slot, 42);
}

#[test]
fn activating_rewards_restarts_accrual_from_the_current_slot() {
    let mut pool = initialize_rewards_config(100, AprCap::Uncapped);
    add_rewards(&mut pool, 10_000).unwrap();
    // Activated at slot 90: the paused gap earns nothing.
    update_rewards_state(&mut pool, State::Active, 90);
    generate_aggregated_rewards(&mut pool, 1_000, 100).unwrap();
    assert_eq!(pool.accumulated_rewards, 1_000);
}
