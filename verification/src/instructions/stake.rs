//! Staking principal into the pool.

use crate::address::{lemma_address_by_bytes, Address};
use crate::error::ErrorCode;
use crate::state::{Pool, UserStake};
use crate::transfer::{Authority, Transfer, TransferOutcome};
use vstd::prelude::*;

verus! {

/// What a stake names: the pool, the depositor's record where there is one,
/// the two asset holdings and the depositor, who authorizes the transfer.
#[derive(Clone, Copy, Debug, PartialEq, Eq)]
pub struct Stake {
    pub pool: Pool,
    /// `None` until the depositor has staked for the first time.
    pub user_stake: Option<UserStake>,
    pub user_token_account: Address,
    pub pool_token_account: Address,
    pub user: Address,
}

impl Stake {
    /// The principal that the depositor has staked so far: zero where no
    /// record exists yet.
    pub open spec fn staked(self) -> int {
        match self.user_stake {
            Some(record) => record.amount as int,
            None => 0,
        }
    }

    /// The transfer that a stake of `amount` asks for, or why there is none.
    ///
    /// An amount of zero is refused first, then a record that belongs to
    /// someone else, then an amount that would take the depositor's stake or
    /// the pool's total beyond 64 bits. Otherwise the depositor's holding pays
    /// `amount` to the pool's holding, and the depositor signs.
    pub open spec fn spec_transfer(self, amount: u64) -> Result<Transfer, ErrorCode> {
        if amount == 0 {
            Err(ErrorCode::ZeroAmount)
        } else if self.user_stake matches Some(record) && record.user != self.user {
            Err(ErrorCode::Unauthorized)
        } else if self.pool.total_staked + amount > u64::MAX || self.staked() + amount > u64::MAX {
            Err(ErrorCode::ArithmeticOverflow)
        } else {
            Ok(
                Transfer {
                    from: self.user_token_account,
                    to: self.pool_token_account,
                    authority: Authority::Signer(self.user),
                    amount,
                },
            )
        }
    }

    /// Checks a stake of `amount` and names the transfer that funds it.
    pub fn transfer(&self, amount: u64) -> (request: Result<Transfer, ErrorCode>)
        ensures
            request == self.spec_transfer(amount),
    {
        if amount == 0 {
            return Err(ErrorCode::ZeroAmount);
        }
        let staked: u64 = match self.user_stake {
            Some(record) => {
                proof {
                    lemma_address_by_bytes(record.user, self.user);
                }
                if record.user != self.user {
                    return Err(ErrorCode::Unauthorized);
                }
                record.amount
            },
            None => 0,
        };
        if self.pool.total_staked.checked_add(amount).is_none() || staked.checked_add(
            amount,
        ).is_none() {
            return Err(ErrorCode::ArithmeticOverflow);
        }
        Ok(
            Transfer {
                from: self.user_token_account,
                to: self.pool_token_account,
                authority: Authority::Signer(self.user),
                amount,
            },
        )
    }
}

/// The context after a stake of `amount` whose transfer ended as `transfer`
/// says, or the reason for which nothing changed.
///
/// Where the request stands and the transfer was completed, the depositor has
/// a record in their name, and both that record and the pool's total stake
/// have grown by `amount`.
pub open spec fn stake_outcome(ctx: Stake, amount: u64, transfer: TransferOutcome) -> Result<
    Stake,
    ErrorCode,
> {
    match ctx.spec_transfer(amount) {
        Err(error) => Err(error),
        Ok(_) => match transfer {
            TransferOutcome::Rejected => Err(ErrorCode::TransferFailure),
            TransferOutcome::Completed => Ok(
                Stake {
                    pool: Pool { total_staked: (ctx.pool.total_staked + amount) as u64, ..ctx.pool },
                    user_stake: Some(
                        UserStake { user: ctx.user, amount: (ctx.staked() + amount) as u64 },
                    ),
                    ..ctx
                },
            ),
        },
    }
}

/// Records a stake of `amount`, given how the transfer named by
/// `ctx.transfer(amount)` ended. The depositor's record is created where it
/// was absent.
pub fn stake(ctx: &mut Stake, amount: u64, transfer: TransferOutcome) -> (result: Result<
    (),
    ErrorCode,
>)
    ensures
        match stake_outcome(*old(ctx), amount, transfer) {
            Ok(next) => result is Ok && *final(ctx) == next,
            Err(error) => result == Err::<(), ErrorCode>(error) && *final(ctx) == *old(ctx),
        },
{
    match ctx.transfer(amount) {
        Ok(_) => {},
        Err(error) => {
            return Err(error);
        },
    }
    match transfer {
        TransferOutcome::Rejected => Err(ErrorCode::TransferFailure),
        TransferOutcome::Completed => {
            let staked: u64 = match ctx.user_stake {
                Some(record) => record.amount,
                None => 0,
            };
            ctx.user_stake = Some(UserStake { user: ctx.user, amount: staked + amount });
            ctx.pool.total_staked = ctx.pool.total_staked + amount;
            Ok(())
        },
    }
}

/// A stake of nothing is refused whatever the transfer service says, so that
/// it changes no record.
pub proof fn lemma_stake_of_nothing(ctx: Stake, transfer: TransferOutcome)
    ensures
        stake_outcome(ctx, 0, transfer) == Err::<Stake, ErrorCode>(ErrorCode::ZeroAmount),
{
}

} // verus!
