//! The record types of the ledger.
//!
//! Every record is a plain value: operations take the records they touch as
//! explicit parameters and the host supplies clock readings. Addresses and
//! asset ids are carried as 32-byte vectors; the library stores and compares
//! them but never interprets them.

use vstd::prelude::*;

use crate::constants::MAX_PERCENT;

verus! {

/// Lifecycle state of a record. `Child` marks a range position created by
/// `bond_range`, which grants claim rights over a leaf-nonce range against a
/// funded parent position but holds no stake of its own.
#[derive(Clone, Copy, Debug, PartialEq, Eq, Structural)]
pub enum State {
    Inactive,
    Active,
    Child,
}

impl State {
    /// The wire code of this state in the external account store.
    pub open spec fn spec_code(self) -> u8 {
        match self {
            State::Inactive => 0,
            State::Active => 1,
            State::Child => 2,
        }
    }

    /// Wire code of the state, as persisted by the external account store.
    pub fn to_code(&self) -> (c: u8)
        ensures
            c == self.spec_code(),
    {
        match self {
            State::Inactive => 0,
            State::Active => 1,
            State::Child => 2,
        }
    }
}

/// The APR cap policy of the reward pool, stated explicitly rather than
/// through a zero sentinel: `Capped` carries the maximum APR in basis points.
#[derive(Clone, Copy, Debug, PartialEq, Eq, Structural)]
pub enum AprCap {
    Uncapped,
    Capped(u64),
}

/// The reward pool: a funded reserve distributed over time through a
/// monotonically non-decreasing fixed-point rewards-per-share index.
#[derive(Clone, Copy, Debug)]
pub struct RewardsConfig {
    pub rewards_state: State,
    /// Funded, not yet distributed reward units.
    pub rewards_reserve: u64,
    /// Distributed units, not yet claimed by anyone.
    pub accumulated_rewards: u64,
    /// Reward units released per elapsed slot.
    pub rewards_per_slot: u64,
    /// Rewards-per-share index, scaled by `DIVISION_SAFETY_CONST`.
    pub rewards_per_share: u64,
    /// Slot up to which rewards have been settled.
    pub last_reward_slot: u64,
    /// APR cap policy.
    pub max_apr: AprCap,
}

/// Per-collection bonding configuration, read-only to the operations and
/// mutated only through the admin setters.
#[derive(Debug)]
pub struct BondConfig {
    pub index: u8,
    pub bond_state: State,
    /// Merkle tree (32 bytes) whose leaves this configuration gates.
    pub merkle_tree: Vec<u8>,
    /// Lock period of a freshly bonded or renewed position.
    pub lock_period: u64,
    /// The exact amount a new bond must lock: no partial bonds.
    pub bond_amount: u64,
    /// Early-withdrawal penalty in basis points.
    pub withdraw_penalty: u64,
}

impl BondConfig {
    /// The penalty is a percentage in basis points and the merkle tree is a
    /// 32-byte address. Constructors establish this and setters preserve it.
    pub open spec fn wf(self) -> bool {
        &&& self.withdraw_penalty <= MAX_PERCENT
        &&& self.merkle_tree@.len() == 32
    }
}

/// Aggregate totals of one token vault.
#[derive(Clone, Copy, Debug)]
pub struct VaultConfig {
    /// Sum of every active position's bonded amount, over all stakers.
    pub total_bond_amount: u64,
    /// Early-withdrawal penalties kept as protocol revenue; never returned to
    /// the reward reserve.
    pub total_penalized_amount: u64,
}

/// One staker's ledger: aggregate stake, reward settlement snapshot and the
/// continuously decayed, stake-weighted liveliness score.
#[derive(Debug)]
pub struct AddressBondsRewards {
    /// The staker's address (32 bytes), inert to the accounting core.
    pub address: Vec<u8>,
    /// Sum of this staker's active positions' bonded amounts.
    pub address_total_bond_amount: u64,
    /// Id of the most recently created position; ids are issued sequentially.
    pub current_index: u16,
    /// Timestamp of the last liveliness decay/re-base.
    pub last_update_timestamp: u64,
    /// Copy of the pool's rewards-per-share index at the last settlement.
    pub address_rewards_per_share: u64,
    /// Accrued but unpaid reward units.
    pub claimable_amount: u64,
    /// Stake-weighted liveliness score, conceptually 0 to `MAX_PERCENT`
    /// basis points; decays between touches, re-based on stake changes.
    pub weighted_liveliness_score: u64,
    /// Id of the position designated as the staker's vault bond, 0 if none.
    pub vault_bond_id: u16,
}

/// One stake: a locked amount tied to an asset, or a `Child` record granting
/// claim rights over a leaf-nonce range of a parent vault position.
#[derive(Debug)]
pub struct Bond {
    pub state: State,
    /// Whether the position backs a range of compressed-NFT leaves.
    pub is_vault: bool,
    pub bond_timestamp: u64,
    /// `bond_timestamp + lock_period`; the position unlocks here.
    pub unbond_timestamp: u64,
    pub bond_amount: u64,
    /// Asset id (32 bytes) bound into the position; empty for `Child`
    /// records, which carry no asset of their own.
    pub asset_id: Vec<u8>,
    /// Owner address (32 bytes), inert to the accounting core.
    pub owner: Vec<u8>,
    /// For `Child` records: id of the parent vault position.
    pub parent_bond_id: u16,
    /// For `Child` records: claimable leaf-nonce range `[start, end)`.
    pub start_nonce: u64,
    pub end_nonce: u64,
}

impl Bond {
    /// An active position holds stake and a consistent lock window; inactive
    /// and child records hold none.
    pub open spec fn wf(self) -> bool {
        &&& self.state is Active ==> self.bond_amount > 0
            && self.unbond_timestamp >= self.bond_timestamp
        &&& self.state is Inactive ==> self.bond_amount == 0
        &&& self.state is Child ==> self.bond_amount == 0
    }
}

} // verus!
