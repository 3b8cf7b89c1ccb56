//! The books of a whole pool, and the laws that every history of operations
//! obeys.
//!
//! An operation sees only the records that its call names. The ledger is what
//! the account store holds between operations: the pool's record and the
//! record of every depositor. Beside them it keeps what no record holds: the
//! rewards ever deposited, the rewards ever paid out, and the units that the
//! pool's asset holding has in custody. Nothing here runs; the ledger exists
//! to state what the operations preserve.

use crate::address::Address;
use crate::instructions::distribute_rewards::{distribute_rewards_outcome, DistributeRewards};
use crate::instructions::initialize::{initialize_outcome, Initialize};
use crate::instructions::stake::{stake_outcome, Stake};
use crate::instructions::withdraw::{withdraw_outcome, Withdraw};
use crate::reward::lemma_share_within_rewards;
use crate::state::{Pool, UserStake};
use crate::transfer::TransferOutcome;
use vstd::prelude::*;

verus! {

/// The sum of the principal in all the records.
pub open spec fn staked_sum(stakes: Seq<UserStake>) -> int
    decreases stakes.len(),
{
    if stakes.len() == 0 {
        0
    } else {
        staked_sum(stakes.drop_last()) + stakes.last().amount
    }
}

/// A new record adds its principal to the sum.
pub proof fn lemma_sum_with_new_record(stakes: Seq<UserStake>, record: UserStake)
    ensures
        staked_sum(stakes.push(record)) == staked_sum(stakes) + record.amount,
{
    assert(stakes.push(record).drop_last() =~= stakes);
}

/// A changed record changes the sum by the difference of its principal.
pub proof fn lemma_sum_with_changed_record(stakes: Seq<UserStake>, slot: int, record: UserStake)
    requires
        0 <= slot < stakes.len(),
    ensures
        staked_sum(stakes.update(slot, record)) == staked_sum(stakes) - stakes[slot].amount
            + record.amount,
    decreases stakes.len(),
{
    if slot == stakes.len() - 1 {
        assert(stakes.update(slot, record).drop_last() =~= stakes.drop_last());
    } else {
        assert(stakes.update(slot, record).drop_last() =~= stakes.drop_last().update(slot, record));
        lemma_sum_with_changed_record(stakes.drop_last(), slot, record);
    }
}

/// No record holds more than the sum of all of them.
pub proof fn lemma_record_within_sum(stakes: Seq<UserStake>, slot: int)
    requires
        0 <= slot < stakes.len(),
    ensures
        stakes[slot].amount <= staked_sum(stakes),
        0 <= staked_sum(stakes),
    decreases stakes.len(),
{
    lemma_sum_not_negative(stakes.drop_last());
    if slot < stakes.len() - 1 {
        lemma_record_within_sum(stakes.drop_last(), slot);
    }
}

/// The sum of the records is never negative.
pub proof fn lemma_sum_not_negative(stakes: Seq<UserStake>)
    ensures
        0 <= staked_sum(stakes),
    decreases stakes.len(),
{
    if stakes.len() > 0 {
        lemma_sum_not_negative(stakes.drop_last());
    }
}

/// The books of a pool between two operations.
pub struct Ledger {
    /// The pool's record.
    pub pool: Pool,
    /// The depositors' records, each in a slot of its own.
    pub stakes: Seq<UserStake>,
    /// All the rewards that were ever deposited.
    pub rewards_deposited: nat,
    /// All the rewards that were ever paid out.
    pub rewards_paid: nat,
    /// The units that the pool's asset holding has taken in and not paid out.
    pub custody: int,
}

/// One call of an operation on a ledger: the context that the call was
/// handed, the slot of the depositor's record where the operation has one,
/// the amount, and the answer of the asset transfer service.
#[allow(inconsistent_fields)]
pub enum Operation {
    Stake { slot: int, ctx: Stake, amount: u64, transfer: TransferOutcome },
    DistributeRewards { ctx: DistributeRewards, amount: u64, transfer: TransferOutcome },
    Withdraw { slot: int, ctx: Withdraw, amount: u64, transfer: TransferOutcome },
}

impl Ledger {
    /// The ledger of a pool that was just created for `owner`.
    pub open spec fn opened(owner: Address) -> Ledger {
        Ledger {
            pool: Pool { owner, total_staked: 0, total_rewards: 0 },
            stakes: Seq::empty(),
            rewards_deposited: 0,
            rewards_paid: 0,
            custody: 0,
        }
    }

    /// The record in `slot`, or `None` where the slot is still free.
    pub open spec fn record(self, slot: int) -> Option<UserStake> {
        if 0 <= slot < self.stakes.len() {
            Some(self.stakes[slot])
        } else {
            None
        }
    }

    /// The books agree: the pool's total stake is the sum of the depositors'
    /// records, its rewards are what was deposited less what was paid out, and
    /// its holding has in custody exactly the stake and the rewards.
    pub open spec fn balanced(self) -> bool {
        &&& self.pool.total_staked == staked_sum(self.stakes)
        &&& self.pool.total_rewards == self.rewards_deposited - self.rewards_paid
        &&& self.custody == self.pool.total_staked + self.pool.total_rewards
    }

    /// No depositor has two records.
    pub open spec fn one_record_each(self) -> bool {
        forall|i: int, j: int|
            0 <= i < j < self.stakes.len() ==> (#[trigger] self.stakes[i]).user != (
            #[trigger] self.stakes[j]).user
    }

    /// `slot` is where `user` belongs: it holds the record of `user`, or it is
    /// the next free slot and no record is in the name of `user`.
    pub open spec fn slot_of(self, slot: int, user: Address) -> bool {
        if slot == self.stakes.len() {
            forall|i: int| 0 <= i < self.stakes.len() ==> (#[trigger] self.stakes[i]).user != user
        } else {
            0 <= slot < self.stakes.len() && self.stakes[slot].user == user
        }
    }

    /// The call was handed the ledger's own records: the pool's record, and
    /// for a stake or a withdrawal the record in the caller's slot.
    pub open spec fn serves(self, op: Operation) -> bool {
        match op {
            Operation::Stake { slot, ctx, amount, transfer } => {
                &&& ctx.pool == self.pool
                &&& ctx.user_stake == self.record(slot)
                &&& self.slot_of(slot, ctx.user)
            },
            Operation::DistributeRewards { ctx, amount, transfer } => ctx.pool == self.pool,
            Operation::Withdraw { slot, ctx, amount, transfer } => {
                &&& ctx.pool == self.pool
                &&& Some(ctx.user_stake) == self.record(slot)
            },
        }
    }

    /// The ledger after the call. A call that fails, and a call that was not
    /// handed the ledger's own records, leaves the ledger as it was.
    pub open spec fn apply(self, op: Operation) -> Ledger {
        if !self.serves(op) {
            self
        } else {
            match op {
                Operation::Stake { slot, ctx, amount, transfer } => match stake_outcome(
                    ctx,
                    amount,
                    transfer,
                ) {
                    Err(_) => self,
                    Ok(next) => Ledger {
                        pool: next.pool,
                        stakes: if slot == self.stakes.len() {
                            self.stakes.push(next.user_stake->0)
                        } else {
                            self.stakes.update(slot, next.user_stake->0)
                        },
                        custody: self.custody + amount,
                        ..self
                    },
                },
                Operation::DistributeRewards { ctx, amount, transfer } => match distribute_rewards_outcome(
                    ctx,
                    amount,
                    transfer,
                ) {
                    Err(_) => self,
                    Ok(next) => Ledger {
                        pool: next.pool,
                        rewards_deposited: (self.rewards_deposited + amount) as nat,
                        custody: self.custody + amount,
                        ..self
                    },
                },
                Operation::Withdraw { slot, ctx, amount, transfer } => match withdraw_outcome(
                    ctx,
                    amount,
                    transfer,
                ) {
                    Err(_) => self,
                    Ok(next) => Ledger {
                        pool: next.pool,
                        stakes: self.stakes.update(slot, next.user_stake),
                        rewards_paid: (self.rewards_paid + ctx.reward_share()) as nat,
                        custody: self.custody - (amount + ctx.reward_share()),
                        ..self
                    },
                },
            }
        }
    }

    /// The ledger after the calls of `history`, one after the other.
    pub open spec fn replay(self, history: Seq<Operation>) -> Ledger
        decreases history.len(),
    {
        if history.len() == 0 {
            self
        } else {
            self.replay(history.drop_last()).apply(history.last())
        }
    }
}

/// A pool that was just created has balanced books.
pub proof fn lemma_opened_is_balanced(ctx: Initialize)
    requires
        ctx.pool is None,
    ensures
        initialize_outcome(ctx) is Ok,
        initialize_outcome(ctx)->Ok_0.pool == Some(Ledger::opened(ctx.owner).pool),
        Ledger::opened(ctx.owner).balanced(),
        Ledger::opened(ctx.owner).one_record_each(),
{
}

/// No call unbalances the books: after any one call on a balanced ledger the
/// pool's total stake is still the sum of the depositors' records, its
/// rewards are still what was deposited less what was paid out, its holding
/// still has exactly both in custody, and still no depositor has two records.
pub proof fn lemma_apply_keeps_balance(ledger: Ledger, op: Operation)
    requires
        ledger.balanced(),
        ledger.one_record_each(),
    ensures
        ledger.apply(op).balanced(),
        ledger.apply(op).one_record_each(),
{
    if ledger.serves(op) {
        match op {
            Operation::Stake { slot, ctx, amount, transfer } => {
                if let Ok(next) = stake_outcome(ctx, amount, transfer) {
                    let record = next.user_stake->0;
                    if slot == ledger.stakes.len() {
                        lemma_sum_with_new_record(ledger.stakes, record);
                    } else {
                        lemma_sum_with_changed_record(ledger.stakes, slot, record);
                    }
                }
            },
            Operation::DistributeRewards { ctx, amount, transfer } => {},
            Operation::Withdraw { slot, ctx, amount, transfer } => {
                if let Ok(next) = withdraw_outcome(ctx, amount, transfer) {
                    lemma_sum_with_changed_record(ledger.stakes, slot, next.user_stake);
                }
            },
        }
    }
}

/// Between any two operations the books are balanced: whatever calls were
/// made on a pool since it was created, in whatever order and with whatever
/// outcome, the pool's total stake equals the sum over all depositors, and
/// its rewards equal the reward deposits less the reward payouts.
pub proof fn lemma_every_history_is_balanced(owner: Address, history: Seq<Operation>)
    ensures
        Ledger::opened(owner).replay(history).balanced(),
        Ledger::opened(owner).replay(history).one_record_each(),
    decreases history.len(),
{
    if history.len() > 0 {
        lemma_every_history_is_balanced(owner, history.drop_last());
        lemma_apply_keeps_balance(Ledger::opened(owner).replay(history.drop_last()), history.last());
    }
}

/// On balanced books a withdrawal is never refused for the pool's sake: a
/// depositor who asks for a part of their own stake, and whose principal and
/// share fit in 64 bits together, is paid whenever the transfer is completed,
/// and the share is no more than the pool's rewards.
pub proof fn lemma_withdrawal_is_owed(ledger: Ledger, slot: int, ctx: Withdraw, amount: u64)
    requires
        ledger.balanced(),
        ledger.serves(Operation::Withdraw { slot, ctx, amount, transfer: TransferOutcome::Completed }),
        0 < amount <= ctx.user_stake.amount,
        ctx.user_stake.user == ctx.user,
        amount + ctx.reward_share() <= u64::MAX,
    ensures
        0 <= ctx.reward_share() <= ctx.pool.total_rewards,
        withdraw_outcome(ctx, amount, TransferOutcome::Completed) is Ok,
        ctx.spec_transfer(amount) is Ok,
        ctx.spec_transfer(amount)->Ok_0.amount == amount + ctx.reward_share(),
{
    lemma_record_within_sum(ledger.stakes, slot);
    lemma_share_within_rewards(
        ctx.pool.total_rewards as int,
        ctx.user_stake.amount as int,
        ctx.pool.total_staked as int,
    );
}

} // verus!
