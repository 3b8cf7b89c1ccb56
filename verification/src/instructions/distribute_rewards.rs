//! Depositing rewards into the pool.

use crate::address::{lemma_address_by_bytes, Address};
use crate::error::ErrorCode;
use crate::state::Pool;
use crate::transfer::{Authority, Transfer, TransferOutcome};
use vstd::prelude::*;

verus! {

/// What a reward deposit names: the pool, the two asset holdings and the
/// owner, who authorizes the transfer.
#[derive(Clone, Copy, Debug, PartialEq, Eq)]
pub struct DistributeRewards {
    pub pool: Pool,
    pub owner_token_account: Address,
    pub pool_token_account: Address,
    pub owner: Address,
}

impl DistributeRewards {
    /// The transfer that a reward deposit of `amount` asks for, or why there
    /// is none.
    ///
    /// An amount of zero is refused first, then a caller other than the
    /// pool's owner, then an amount that would take the pool's rewards beyond
    /// 64 bits. Otherwise the owner's holding pays `amount` to the pool's
    /// holding, and the owner signs.
    pub open spec fn spec_transfer(self, amount: u64) -> Result<Transfer, ErrorCode> {
        if amount == 0 {
            Err(ErrorCode::ZeroAmount)
        } else if self.owner != self.pool.owner {
            Err(ErrorCode::Unauthorized)
        } else if self.pool.total_rewards + amount > u64::MAX {
            Err(ErrorCode::ArithmeticOverflow)
        } else {
            Ok(
                Transfer {
                    from: self.owner_token_account,
                    to: self.pool_token_account,
                    authority: Authority::Signer(self.owner),
                    amount,
                },
            )
        }
    }

    /// Checks a reward deposit of `amount` and names the transfer that funds
    /// it.
    pub fn transfer(&self, amount: u64) -> (request: Result<Transfer, ErrorCode>)
        ensures
            request == self.spec_transfer(amount),
    {
        if amount == 0 {
            return Err(ErrorCode::ZeroAmount);
        }
        proof {
            lemma_address_by_bytes(self.owner, self.pool.owner);
        }
        if self.owner != self.pool.owner {
            return Err(ErrorCode::Unauthorized);
        }
        if self.pool.total_rewards.checked_add(amount).is_none() {
            return Err(ErrorCode::ArithmeticOverflow);
        }
        Ok(
            Transfer {
                from: self.owner_token_account,
                to: self.pool_token_account,
                authority: Authority::Signer(self.owner),
                amount,
            },
        )
    }
}

/// The context after a reward deposit of `amount` whose transfer ended as
/// `transfer` says, or the reason for which nothing changed.
///
/// Where the request stands and the transfer was completed, the pool's
/// rewards have grown by `amount`.
pub open spec fn distribute_rewards_outcome(
    ctx: DistributeRewards,
    amount: u64,
    transfer: TransferOutcome,
) -> Result<DistributeRewards, ErrorCode> {
    match ctx.spec_transfer(amount) {
        Err(error) => Err(error),
        Ok(_) => match transfer {
            TransferOutcome::Rejected => Err(ErrorCode::TransferFailure),
            TransferOutcome::Completed => Ok(
                DistributeRewards {
                    pool: Pool { total_rewards: (ctx.pool.total_rewards + amount) as u64, ..ctx.pool },
                    ..ctx
                },
            ),
        },
    }
}

/// Records a reward deposit of `amount`, given how the transfer named by
/// `ctx.transfer(amount)` ended.
pub fn distribute_rewards(ctx: &mut DistributeRewards, amount: u64, transfer: TransferOutcome) -> (result:
    Result<(), ErrorCode>)
    ensures
        match distribute_rewards_outcome(*old(ctx), amount, transfer) {
            Ok(next) => result is Ok && *final(ctx) == next,
            Err(error) => result == Err::<(), ErrorCode>(error) && *final(ctx) == *old(ctx),
        },
{
    match ctx.transfer(amount) {
        Ok(_) => {},
        Err(error) => {
            return Err(error);
        },
    }
    match transfer {
        TransferOutcome::Rejected => Err(ErrorCode::TransferFailure),
        TransferOutcome::Completed => {
            ctx.pool.total_rewards = ctx.pool.total_rewards + amount;
            Ok(())
        },
    }
}

/// A reward deposit of nothing is refused whatever the transfer service says,
/// so that it changes no record.
pub proof fn lemma_deposit_of_nothing(ctx: DistributeRewards, transfer: TransferOutcome)
    ensures
        distribute_rewards_outcome(ctx, 0, transfer) == Err::<DistributeRewards, ErrorCode>(
            ErrorCode::ZeroAmount,
        ),
{
}

} // verus!
