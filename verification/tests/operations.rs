use core_sol_bond_stake_sc::admin::{
    add_rewards, update_bond_state, update_rewards_state, update_withdraw_penalty,
};
use core_sol_bond_stake_sc::constants::DIVISION_SAFETY_CONST;
use core_sol_bond_stake_sc::errors::Errors;
use core_sol_bond_stake_sc::ops::{
    bond, bond_range, claim_rewards, create_bond_config, initialize_address, initialize_contract,
    initialize_vault, renew, stake_rewards, top_up, update_vault_bond, withdraw,
};
use core_sol_bond_stake_sc::states::{
    AddressBondsRewards, AprCap, Bond, BondConfig, RewardsConfig, State, VaultConfig,
};

const LOCK: u64 = 1_000;
const REQUIRED: u64 = 500;
const PENALTY_BPS: u64 = 1_000;

struct World {
    config: BondConfig,
    pool: RewardsConfig,
    vault: VaultConfig,
    ledger: AddressBondsRewards,
}

fn tree() -> Vec<u8> {
    vec![7u8; 32]
}

fn world(rewards_per_slot: u64, reserve: u64) -> World {
    let (mut config, mut pool) = initialize_contract(
        0,
        tree(),
        LOCK,
        REQUIRED,
        PENALTY_BPS,
        rewards_per_slot,
        AprCap::Uncapped,
    );
    update_bond_state(&mut config, State::Active);
    add_rewards(&mut pool, reserve).unwrap();
    update_rewards_state(&mut pool, State::Active, 0);
    let vault = initialize_vault();
    let ledger = initialize_address(&pool, vec![1u8; 32], 0);
    World { config, pool, vault, ledger }
}

fn bond_at(w: &mut World, bond_id: u16, nonce: u64, is_vault: bool, t: u64, slot: u64) -> Bond {
    bond(
        &w.config,
        &mut w.pool,
        &mut w.vault,
        &mut w.ledger,
        bond_id,
        REQUIRED,
        nonce,
        is_vault,
        t,
        slot,
    )
    .unwrap()
}

#[test]
fn bond_creates_an_active_position_and_raises_totals() {
    let mut w = world(0, 0);
    let b = bond_at(&mut w, 1, 11, false, 0, 0);
    assert_eq!(b.state.to_code(), 1);
    assert_eq!(b.bond_amount, REQUIRED);
    assert_eq!(b.bond_timestamp, 0);
    assert_eq!(b.unbond_timestamp, LOCK);
    assert_eq!(w.ledger.address_total_bond_amount, REQUIRED);
    assert_eq!(w.vault.total_bond_amount, REQUIRED);
    assert_eq!(w.ledger.current_index, 1);
    // Fresh stake enters at full weight: 100% in basis points.
    assert_eq!(w.ledger.weighted_liveliness_score, 10_000);
}

#[test]
fn bond_rejects_paused_config() {
    let mut w = world(0, 0);
    update_bond_state(&mut w.config, State::Inactive);
    let r = bond(&w.config, &mut w.pool, &mut w.vault, &mut w.ledger, 1, REQUIRED, 11, false, 0, 0);
    assert_eq!(r.unwrap_err(), Errors::ProgramIsPaused);
}

#[test]
fn bond_rejects_out_of_order_id() {
    let mut w = world(0, 0);
    let r = bond(&w.config, &mut w.pool, &mut w.vault, &mut w.ledger, 2, REQUIRED, 11, false, 0, 0);
    assert_eq!(r.unwrap_err(), Errors::WrongBondId);
    assert_eq!(w.ledger.current_index, 0);
}

#[test]
fn bond_rejects_partial_amount() {
    let mut w = world(0, 0);
    let r = bond(&w.config, &mut w.pool, &mut w.vault, &mut w.ledger, 1, REQUIRED - 1, 11, false, 0, 0);
    assert_eq!(r.unwrap_err(), Errors::WrongAmount);
}

#[test]
fn bond_rejects_zero_lock_period() {
    let mut w = world(0, 0);
    let (mut config, _) =
        initialize_contract(0, tree(), 0, REQUIRED, PENALTY_BPS, 0, AprCap::Uncapped);
    update_bond_state(&mut config, State::Active);
    let r = bond(&config, &mut w.pool, &mut w.vault, &mut w.ledger, 1, REQUIRED, 11, false, 0, 0);
    assert_eq!(r.unwrap_err(), Errors::ArithmeticOverflow);
    assert_eq!(w.vault.total_bond_amount, 0);
}

#[test]
fn withdraw_before_unlock_pays_amount_minus_penalty() {
    // lockPeriod 1000, requiredAmount 500, bond at t=0: unbond at 1000.
    // Withdrawing at t=500 with a 10% penalty: penalty 50, payout 450.
    let mut w = world(0, 0);
    let mut b = bond_at(&mut w, 1, 11, false, 0, 0);
    let payout =
        withdraw(&w.config, &mut w.pool, &mut w.vault, &mut w.ledger, &mut b, 500, 5).unwrap();
    assert_eq!(payout, 450);
    assert_eq!(b.state.to_code(), 0);
    assert_eq!(b.bond_amount, 0);
    assert_eq!(b.unbond_timestamp, 500);
    assert_eq!(w.vault.total_penalized_amount, 50);
    assert_eq!(w.vault.total_bond_amount, 0);
    assert_eq!(w.ledger.address_total_bond_amount, 0);
}

#[test]
fn withdraw_after_unlock_pays_in_full() {
    let mut w = world(0, 0);
    let mut b = bond_at(&mut w, 1, 11, false, 0, 0);
    let payout =
        withdraw(&w.config, &mut w.pool, &mut w.vault, &mut w.ledger, &mut b, LOCK, 10).unwrap();
    assert_eq!(payout, REQUIRED);
    assert_eq!(w.vault.total_penalized_amount, 0);
}

#[test]
fn withdraw_rejects_inactive_position() {
    let mut w = world(0, 0);
    let mut b = bond_at(&mut w, 1, 11, false, 0, 0);
    withdraw(&w.config, &mut w.pool, &mut w.vault, &mut w.ledger, &mut b, 500, 5).unwrap();
    let r = withdraw(&w.config, &mut w.pool, &mut w.vault, &mut w.ledger, &mut b, 600, 6);
    assert_eq!(r.unwrap_err(), Errors::BondIsInactive);
}

#[test]
fn ledger_total_tracks_active_positions() {
    // Bond twice, top one up, withdraw one: at every quiescent point the
    // ledger total equals the sum of the active positions' amounts.
    let mut w = world(0, 0);
    let mut first = bond_at(&mut w, 1, 11, true, 0, 0);
    let second = bond_at(&mut w, 2, 12, false, 10, 1);
    assert_eq!(
        w.ledger.address_total_bond_amount,
        first.bond_amount + second.bond_amount
    );
    update_vault_bond(&mut w.ledger, &first, &w.config, 1, 11).unwrap();
    top_up(&w.config, &mut w.pool, &mut w.vault, &mut w.ledger, &mut first, 1, 300, 20, 2)
        .unwrap();
    assert_eq!(
        w.ledger.address_total_bond_amount,
        first.bond_amount + second.bond_amount
    );
    let mut closing = second;
    withdraw(&w.config, &mut w.pool, &mut w.vault, &mut w.ledger, &mut closing, 30, 3).unwrap();
    assert_eq!(w.ledger.address_total_bond_amount, first.bond_amount);
    assert_eq!(w.vault.total_bond_amount, first.bond_amount);
}

#[test]
fn renew_restarts_the_lock_window() {
    let mut w = world(0, 0);
    let mut b = bond_at(&mut w, 1, 11, false, 0, 0);
    renew(&w.config, &mut w.pool, &w.vault, &mut w.ledger, &mut b, 600, 6).unwrap();
    assert_eq!(b.bond_timestamp, 600);
    assert_eq!(b.unbond_timestamp, 600 + LOCK);
    assert_eq!(b.bond_amount, REQUIRED);
    assert_eq!(w.ledger.last_update_timestamp, 600);
    // The stake re-enters at full weight: the score is back at 100%.
    assert_eq!(w.ledger.weighted_liveliness_score, 10_000);
}

#[test]
fn top_up_raises_position_and_totals() {
    let mut w = world(0, 0);
    let mut b = bond_at(&mut w, 1, 11, true, 0, 0);
    update_vault_bond(&mut w.ledger, &b, &w.config, 1, 11).unwrap();
    top_up(&w.config, &mut w.pool, &mut w.vault, &mut w.ledger, &mut b, 1, 250, 100, 1).unwrap();
    assert_eq!(b.bond_amount, 750);
    assert_eq!(b.bond_timestamp, 100);
    assert_eq!(b.unbond_timestamp, 100 + LOCK);
    assert_eq!(w.ledger.address_total_bond_amount, 750);
    assert_eq!(w.vault.total_bond_amount, 750);
}

#[test]
fn top_up_rejects_undesignated_or_non_vault_bond() {
    let mut w = world(0, 0);
    let mut b = bond_at(&mut w, 1, 11, false, 0, 0);
    let r = top_up(&w.config, &mut w.pool, &mut w.vault, &mut w.ledger, &mut b, 1, 250, 100, 1);
    assert_eq!(r.unwrap_err(), Errors::VaultBondIdMismatch);
    update_vault_bond(&mut w.ledger, &b, &w.config, 1, 11).unwrap();
    let r = top_up(&w.config, &mut w.pool, &mut w.vault, &mut w.ledger, &mut b, 1, 250, 100, 1);
    assert_eq!(r.unwrap_err(), Errors::BondIsNotAVault);
    assert_eq!(b.bond_amount, REQUIRED);
}

#[test]
fn claim_pays_share_in_full_at_high_liveliness() {
    // The staker holds 500 of 1000 bonded. Ten slots at rate 100 distribute
    // 1000: index delta 10^9, the staker's share 500. Claimed well before
    // unlock, the score is at least 95% and the share is paid in full.
    let mut w = world(100, 10_000);
    let b = bond_at(&mut w, 1, 11, true, 0, 0);
    update_vault_bond(&mut w.ledger, &b, &w.config, 1, 11).unwrap();
    w.vault.total_bond_amount = 1_000;  // another staker's 500 alongside
    let paid =
        claim_rewards(&w.config, &mut w.pool, &w.vault, &mut w.ledger, &b, 1, 10, 10).unwrap();
    assert_eq!(w.pool.rewards_per_share, DIVISION_SAFETY_CONST);
    assert_eq!(paid, 500);
    assert_eq!(w.ledger.claimable_amount, 0);
}

#[test]
fn claim_discounts_and_forfeits_at_half_liveliness() {
    let mut w = world(100, 10_000);
    let b = bond_at(&mut w, 1, 11, true, 0, 0);
    update_vault_bond(&mut w.ledger, &b, &w.config, 1, 11).unwrap();
    w.vault.total_bond_amount = 1_000;
    let reserve_before_claim = 10_000 - 1_000;
    // Claim at t=500: the position's score is (10000/1000)*500 == 5000.
    let paid =
        claim_rewards(&w.config, &mut w.pool, &w.vault, &mut w.ledger, &b, 1, 500, 10).unwrap();
    assert_eq!(paid, 250);
    // The 250 remainder is forfeited, not returned: reserve and
    // accumulated totals are exactly what the tick left.
    assert_eq!(w.ledger.claimable_amount, 0);
    assert_eq!(w.pool.rewards_reserve, reserve_before_claim);
    assert_eq!(w.pool.accumulated_rewards, 1_000);
}

#[test]
fn claim_again_immediately_pays_nothing() {
    let mut w = world(100, 10_000);
    let b = bond_at(&mut w, 1, 11, true, 0, 0);
    update_vault_bond(&mut w.ledger, &b, &w.config, 1, 11).unwrap();
    let first =
        claim_rewards(&w.config, &mut w.pool, &w.vault, &mut w.ledger, &b, 1, 10, 10).unwrap();
    assert!(first > 0);
    let second =
        claim_rewards(&w.config, &mut w.pool, &w.vault, &mut w.ledger, &b, 1, 10, 10).unwrap();
    assert_eq!(second, 0);
    assert_eq!(w.ledger.claimable_amount, 0);
}

#[test]
fn claim_rejects_paused_pool_and_wrong_designation() {
    let mut w = world(100, 10_000);
    let b = bond_at(&mut w, 1, 11, true, 0, 0);
    let r = claim_rewards(&w.config, &mut w.pool, &w.vault, &mut w.ledger, &b, 1, 10, 10);
    assert_eq!(r.unwrap_err(), Errors::VaultBondIdMismatch);
    update_vault_bond(&mut w.ledger, &b, &w.config, 1, 11).unwrap();
    update_rewards_state(&mut w.pool, State::Inactive, 10);
    let r = claim_rewards(&w.config, &mut w.pool, &w.vault, &mut w.ledger, &b, 1, 10, 10);
    assert_eq!(r.unwrap_err(), Errors::ProgramIsPaused);
}

#[test]
fn stake_rewards_compounds_into_the_position() {
    // Same pool as the claim scenario: the staker's settled share is 500.
    // Compounding folds it into the position instead of paying it out.
    let mut w = world(100, 10_000);
    let mut b = bond_at(&mut w, 1, 11, true, 0, 0);
    update_vault_bond(&mut w.ledger, &b, &w.config, 1, 11).unwrap();
    w.vault.total_bond_amount = 1_000;  // another staker's 500 alongside
    stake_rewards(&w.config, &mut w.pool, &mut w.vault, &mut w.ledger, &mut b, 1, 10, 10)
        .unwrap();
    assert_eq!(b.bond_amount, REQUIRED + 500);
    assert_eq!(b.bond_timestamp, 10);
    assert_eq!(b.unbond_timestamp, 10 + LOCK);
    assert_eq!(w.ledger.address_total_bond_amount, REQUIRED + 500);
    assert_eq!(w.vault.total_bond_amount, 1_000 + 500);
    assert_eq!(w.ledger.claimable_amount, 0);
}

#[test]
fn stake_rewards_rejects_non_vault_position() {
    let mut w = world(100, 10_000);
    let mut b = bond_at(&mut w, 1, 11, false, 0, 0);
    update_vault_bond(&mut w.ledger, &b, &w.config, 1, 11).unwrap();
    let r = stake_rewards(&w.config, &mut w.pool, &mut w.vault, &mut w.ledger, &mut b, 1, 10, 10);
    assert_eq!(r.unwrap_err(), Errors::BondIsNotAVault);
}

#[test]
fn bond_range_creates_a_child_record() {
    let mut w = world(0, 0);
    let parent = bond_at(&mut w, 1, 11, true, 0, 0);
    let child = bond_range(&mut w.ledger, &parent, 2, 1, 100, 200).unwrap();
    assert_eq!(child.state.to_code(), 2);
    assert_eq!(child.bond_amount, 0);
    assert_eq!(child.parent_bond_id, 1);
    assert_eq!(child.start_nonce, 100);
    assert_eq!(child.end_nonce, 200);
    assert_eq!(w.ledger.current_index, 2);
    // A capability record moves no stake.
    assert_eq!(w.ledger.address_total_bond_amount, REQUIRED);
    assert_eq!(w.vault.total_bond_amount, REQUIRED);
}

#[test]
fn bond_range_rejects_bad_parents() {
    let mut w = world(0, 0);
    let mut parent = bond_at(&mut w, 1, 11, false, 0, 0);
    let r = bond_range(&mut w.ledger, &parent, 2, 1, 100, 200);
    assert_eq!(r.unwrap_err(), Errors::ParentBondIsNotVault);
    parent.is_vault = true;
    parent.state = State::Inactive;
    let r = bond_range(&mut w.ledger, &parent, 2, 1, 100, 200);
    assert_eq!(r.unwrap_err(), Errors::ParentBondIsNotActive);
    let r = bond_range(&mut w.ledger, &parent, 5, 1, 100, 200);
    assert_eq!(r.unwrap_err(), Errors::WrongBondId);
}

#[test]
fn update_withdraw_penalty_rejects_over_one_hundred_percent() {
    let mut config = create_bond_config(0, tree(), LOCK, REQUIRED, PENALTY_BPS);
    assert_eq!(update_withdraw_penalty(&mut config, 10_001), Err(Errors::WrongValue));
    assert_eq!(config.withdraw_penalty, PENALTY_BPS);
    update_withdraw_penalty(&mut config, 10_000).unwrap();
    assert_eq!(config.withdraw_penalty, 10_000);
}
