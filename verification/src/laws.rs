//! Laws relating the operations: the staker-ledger accounting invariant and
//! the claim's no-double-pay guarantee. The accumulator's own laws (the
//! monotone and idempotent tick) live beside the accumulator.

use vstd::prelude::*;

use crate::ops::{claim_credited, claim_fits, claim_ledger, claim_precheck};
use crate::rewards::{lemma_tick_idempotent, settle_fits, settle_share, tick_transition};
use crate::states::{AddressBondsRewards, Bond, BondConfig, RewardsConfig, State, VaultConfig};

verus! {

// ------------------------------------------------------------------
// The staker-ledger accounting invariant
// ------------------------------------------------------------------

/// What a position contributes to its owner's bonded total: its amount
/// while it is active, nothing otherwise.
pub open spec fn active_amount(b: Bond) -> int {
    if b.state is Active {
        b.bond_amount as int
    } else {
        0
    }
}

/// The sum of the active positions' bonded amounts.
pub open spec fn sum_active(positions: Seq<Bond>) -> int
    decreases positions.len(),
{
    if positions.len() == 0 {
        0
    } else {
        sum_active(positions.drop_last()) + active_amount(positions.last())
    }
}

/// The staker-ledger invariant: the ledger's bonded total equals the sum of
/// the staker's active positions' amounts.
pub open spec fn ledger_matches_positions(l: AddressBondsRewards, positions: Seq<Bond>) -> bool {
    l.address_total_bond_amount == sum_active(positions)
}

proof fn lemma_sum_active_push(positions: Seq<Bond>, b: Bond)
    ensures
        sum_active(positions.push(b)) == sum_active(positions) + active_amount(b),
{
    assert(positions.push(b).drop_last() =~= positions);
}

proof fn lemma_sum_active_update(positions: Seq<Bond>, i: int, b: Bond)
    requires
        0 <= i < positions.len(),
    ensures
        sum_active(positions.update(i, b)) == sum_active(positions) - active_amount(
            positions[i],
        ) + active_amount(b),
    decreases positions.len(),
{
    let updated = positions.update(i, b);
    if i == positions.len() - 1 {
        assert(updated.drop_last() =~= positions.drop_last());
    } else {
        assert(updated.drop_last() =~= positions.drop_last().update(i, b));
        lemma_sum_active_update(positions.drop_last(), i, b);
    }
}

/// One stake mutation of a single staker's position set, as the operations
/// perform them: a new active position, more stake in an existing one, or a
/// position closed out.
pub enum StakeOp {
    NewBond(Bond),
    AddStake(usize, u64),
    CloseBond(usize),
}

/// Whether an operation addresses an existing active position and keeps its
/// amount representable; the operations reject anything else.
pub open spec fn op_applies(positions: Seq<Bond>, op: StakeOp) -> bool {
    match op {
        StakeOp::NewBond(b) => b.state is Active,
        StakeOp::AddStake(i, amount) => i < positions.len() && positions[i as int].state is Active
            && positions[i as int].bond_amount + amount <= u64::MAX,
        StakeOp::CloseBond(i) => i < positions.len() && positions[i as int].state is Active,
    }
}

/// The position set after one operation, exactly as `bond`, `top_up` /
/// `stake_rewards` and `withdraw` leave it.
pub open spec fn apply_positions(positions: Seq<Bond>, op: StakeOp) -> Seq<Bond> {
    match op {
        StakeOp::NewBond(b) => positions.push(b),
        StakeOp::AddStake(i, amount) => positions.update(
            i as int,
            (Bond {
                bond_amount: (positions[i as int].bond_amount + amount) as u64,
                ..positions[i as int]
            }),
        ),
        StakeOp::CloseBond(i) => positions.update(
            i as int,
            (Bond { state: State::Inactive, bond_amount: 0, ..positions[i as int] }),
        ),
    }
}

/// The ledger total after one operation, exactly as the operations adjust
/// it: up by what was bonded, down by what was withdrawn.
pub open spec fn apply_total(positions: Seq<Bond>, total: int, op: StakeOp) -> int {
    match op {
        StakeOp::NewBond(b) => total + b.bond_amount,
        StakeOp::AddStake(i, amount) => total + amount,
        StakeOp::CloseBond(i) => total - positions[i as int].bond_amount,
    }
}

/// Whether a whole sequence of operations applies, step by step.
pub open spec fn ops_apply(positions: Seq<Bond>, ops: Seq<StakeOp>) -> bool
    decreases ops.len(),
{
    ops.len() == 0 || {
        &&& op_applies(positions, ops[0])
        &&& ops_apply(apply_positions(positions, ops[0]), ops.skip(1))
    }
}

/// The position set after a sequence of operations.
pub open spec fn run_positions(positions: Seq<Bond>, ops: Seq<StakeOp>) -> Seq<Bond>
    decreases ops.len(),
{
    if ops.len() == 0 {
        positions
    } else {
        run_positions(apply_positions(positions, ops[0]), ops.skip(1))
    }
}

/// The ledger total after a sequence of operations.
pub open spec fn run_total(positions: Seq<Bond>, total: int, ops: Seq<StakeOp>) -> int
    decreases ops.len(),
{
    if ops.len() == 0 {
        total
    } else {
        run_total(apply_positions(positions, ops[0]), apply_total(positions, total, ops[0]), ops.skip(1))
    }
}

proof fn lemma_apply_preserves_sum(positions: Seq<Bond>, total: int, op: StakeOp)
    requires
        total == sum_active(positions),
        op_applies(positions, op),
    ensures
        apply_total(positions, total, op) == sum_active(apply_positions(positions, op)),
{
    match op {
        StakeOp::NewBond(b) => {
            lemma_sum_active_push(positions, b);
        },
        StakeOp::AddStake(i, amount) => {
            lemma_sum_active_update(
                positions,
                i as int,
                (Bond {
                    bond_amount: (positions[i as int].bond_amount + amount) as u64,
                    ..positions[i as int]
                }),
            );
        },
        StakeOp::CloseBond(i) => {
            lemma_sum_active_update(
                positions,
                i as int,
                (Bond { state: State::Inactive, bond_amount: 0, ..positions[i as int] }),
            );
        },
    }
}

/// Law: over any sequence of bond, top-up / compound and withdraw
/// operations on one staker, the ledger's bonded total equals the sum of
/// the staker's active positions' amounts at every quiescent point.
pub proof fn lemma_total_bonded_matches_positions(
    positions: Seq<Bond>,
    total: int,
    ops: Seq<StakeOp>,
)
    requires
        total == sum_active(positions),
        ops_apply(positions, ops),
    ensures
        run_total(positions, total, ops) == sum_active(run_positions(positions, ops)),
    decreases ops.len(),
{
    if ops.len() > 0 {
        lemma_apply_preserves_sum(positions, total, ops[0]);
        lemma_total_bonded_matches_positions(
            apply_positions(positions, ops[0]),
            apply_total(positions, total, ops[0]),
            ops.skip(1),
        );
    }
}

/// Law, read against `bond`'s contract: a fresh bond preserves the ledger
/// invariant. `bond` returns an active position holding exactly `amount`
/// and raises the ledger total by `amount`.
pub proof fn lemma_bond_preserves_invariant(
    positions: Seq<Bond>,
    l0: AddressBondsRewards,
    l1: AddressBondsRewards,
    b: Bond,
    amount: u64,
)
    requires
        ledger_matches_positions(l0, positions),
        b.state is Active,
        b.bond_amount == amount,
        l1.address_total_bond_amount == l0.address_total_bond_amount + amount,
    ensures
        ledger_matches_positions(l1, positions.push(b)),
{
    lemma_sum_active_push(positions, b);
}

/// Law, read against `top_up`'s and `stake_rewards`' contracts: raising one
/// active position and the ledger total by the same amount preserves the
/// ledger invariant.
pub proof fn lemma_add_stake_preserves_invariant(
    positions: Seq<Bond>,
    l0: AddressBondsRewards,
    l1: AddressBondsRewards,
    i: int,
    b1: Bond,
    amount: u64,
)
    requires
        ledger_matches_positions(l0, positions),
        0 <= i < positions.len(),
        positions[i].state is Active,
        b1.state is Active,
        b1.bond_amount == positions[i].bond_amount + amount,
        l1.address_total_bond_amount == l0.address_total_bond_amount + amount,
    ensures
        ledger_matches_positions(l1, positions.update(i, b1)),
{
    lemma_sum_active_update(positions, i, b1);
}

/// Law, read against `withdraw`'s contract: closing one active position and
/// lowering the ledger total by its amount preserves the ledger invariant.
pub proof fn lemma_withdraw_preserves_invariant(
    positions: Seq<Bond>,
    l0: AddressBondsRewards,
    l1: AddressBondsRewards,
    i: int,
    b1: Bond,
)
    requires
        ledger_matches_positions(l0, positions),
        0 <= i < positions.len(),
        positions[i].state is Active,
        b1.state is Inactive,
        b1.bond_amount == 0,
        l1.address_total_bond_amount == l0.address_total_bond_amount - positions[i].bond_amount,
    ensures
        ledger_matches_positions(l1, positions.update(i, b1)),
{
    lemma_sum_active_update(positions, i, b1);
}

// ------------------------------------------------------------------
// No double pay
// ------------------------------------------------------------------

/// Law: a claim never pays twice. After `claim_rewards`, claiming again
/// with no time elapsed and no stake change fits, pays zero, and leaves the
/// claimable balance at zero — the pool does not move either.
pub proof fn lemma_claim_idempotent(
    config: BondConfig,
    p: RewardsConfig,
    v: VaultConfig,
    l: AddressBondsRewards,
    b: Bond,
    bond_id: u16,
    now: u64,
    current_slot: u64,
)
    requires
        claim_precheck(p, l, b, bond_id) is None,
        claim_fits(config, p, v, l, now, current_slot),
        l.address_rewards_per_share <= p.rewards_per_share,
    ensures
        ({
            let total = v.total_bond_amount;
            let p1 = tick_transition(p, total, current_slot);
            let l1 = claim_ledger(config, p, l, total, now, current_slot);
            &&& claim_fits(config, p1, v, l1, now, current_slot)
            &&& claim_credited(config, p1, l1, b, total, now, current_slot) == 0
            &&& tick_transition(p1, total, current_slot) == p1
            &&& claim_ledger(config, p1, l1, total, now, current_slot).claimable_amount == 0
        }),
{
    let total = v.total_bond_amount;
    let p1 = tick_transition(p, total, current_slot);
    let l1 = claim_ledger(config, p, l, total, now, current_slot);
    lemma_tick_idempotent(p, total, current_slot);
    assert(l1.address_rewards_per_share == p1.rewards_per_share);
    assert(settle_share(p1, l1, total, current_slot) == 0);
    assert(settle_fits(p1, l1, total, current_slot));
}

} // verus!
