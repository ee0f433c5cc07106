use core_sol_bond_stake_sc::admin::{add_rewards, update_bond_state, update_rewards_state};
use core_sol_bond_stake_sc::errors::Errors;
use core_sol_bond_stake_sc::ops::{
    bond, initialize_address, initialize_contract, initialize_vault, update_vault_bond,
};
use core_sol_bond_stake_sc::states::{AprCap, Bond, State};
use solana_program::pubkey::Pubkey;

const TREE: [u8; 32] = [7u8; 32];

fn bonded_position(nonce: u64) -> Bond {
    let (mut config, mut pool) =
        initialize_contract(0, TREE.to_vec(), 1_000, 500, 1_000, 0, AprCap::Uncapped);
    update_bond_state(&mut config, State::Active);
    add_rewards(&mut pool, 0).unwrap();
    update_rewards_state(&mut pool, State::Active, 0);
    let mut vault = initialize_vault();
    let mut ledger = initialize_address(&pool, vec![1u8; 32], 0);
    bond(&config, &mut pool, &mut vault, &mut ledger, 1, 500, nonce, true, 0, 0).unwrap()
}

#[test]
fn bond_binds_the_derived_asset_id() {
    let b = bonded_position(11);
    let expected =
        mpl_bubblegum::utils::get_asset_id(&Pubkey::new_from_array(TREE), 11).to_bytes();
    assert_eq!(b.asset_id.as_slice(), expected.as_slice());
    // The derivation is a hash: the id is not the tree address itself.
    assert_ne!(b.asset_id.as_slice(), TREE.as_slice());
}

#[test]
fn derivation_is_deterministic_and_nonce_sensitive() {
    let a = bonded_position(11);
    let b = bonded_position(11);
    let c = bonded_position(12);
    assert_eq!(a.asset_id, b.asset_id);
    assert_ne!(a.asset_id, c.asset_id);
}

#[test]
fn vault_designation_checks_the_asset_id() {
    let (mut config, mut pool) =
        initialize_contract(0, TREE.to_vec(), 1_000, 500, 1_000, 0, AprCap::Uncapped);
    update_bond_state(&mut config, State::Active);
    update_rewards_state(&mut pool, State::Active, 0);
    let mut vault = initialize_vault();
    let mut ledger = initialize_address(&pool, vec![1u8; 32], 0);
    let b = bond(&config, &mut pool, &mut vault, &mut ledger, 1, 500, 11, true, 0, 0).unwrap();
    // The wrong leaf nonce derives another asset id and is rejected.
    let r = update_vault_bond(&mut ledger, &b, &config, 1, 12);
    assert_eq!(r, Err(Errors::AssetIdMismatch));
    assert_eq!(ledger.vault_bond_id, 0);
    // The right nonce designates the bond.
    update_vault_bond(&mut ledger, &b, &config, 1, 11).unwrap();
    assert_eq!(ledger.vault_bond_id, 1);
}
