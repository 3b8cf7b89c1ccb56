//! Withdrawing principal together with the depositor's share of the rewards.

use crate::address::{
    is_derived, lemma_address_by_bytes, pool_address, pool_seed, program_address, Address,
};
use crate::error::ErrorCode;
use crate::reward::{lemma_share_within_rewards, reward_share, reward_share_of};
use crate::state::{Pool, UserStake};
use crate::transfer::{Authority, Transfer, TransferOutcome};
use vstd::prelude::*;

verus! {

/// What a withdrawal names: the pool with its address and bump, the record of
/// the depositor, the two asset holdings and the depositor who asks.
#[derive(Clone, Copy, Debug, PartialEq, Eq)]
pub struct Withdraw {
    pub pool: Pool,
    /// The address of the pool's record, under which the pool's holding stands.
    pub pool_address: Address,
    /// The bump with which `pool_address` was derived.
    pub pool_bump: u8,
    pub user_stake: UserStake,
    pub user_token_account: Address,
    pub pool_token_account: Address,
    pub user: Address,
}

impl Withdraw {
    /// The rewards that fall to the depositor's whole stake, rounded down.
    pub open spec fn reward_share(self) -> int {
        reward_share_of(
            self.pool.total_rewards as int,
            self.user_stake.amount as int,
            self.pool.total_staked as int,
        )
    }

    /// The transfer that a withdrawal of `amount` asks for, or why there is
    /// none.
    ///
    /// More than the depositor has staked is refused first, then an amount of
    /// zero, then a record that belongs to someone else. After that the
    /// withdrawal is refused only where a counter would leave its range: the
    /// pool's total stake or rewards would fall below zero, or principal and
    /// share together exceed 64 bits. Otherwise the pool's holding pays
    /// `amount` and the share to the depositor's holding, under the pool's own
    /// authority.
    pub open spec fn spec_transfer(self, amount: u64) -> Result<Transfer, ErrorCode> {
        if self.user_stake.amount < amount {
            Err(ErrorCode::InsufficientStake)
        } else if amount == 0 {
            Err(ErrorCode::ZeroAmount)
        } else if self.user_stake.user != self.user {
            Err(ErrorCode::Unauthorized)
        } else if amount > self.pool.total_staked || self.reward_share() > self.pool.total_rewards
            || amount + self.reward_share() > u64::MAX {
            Err(ErrorCode::ArithmeticOverflow)
        } else {
            Ok(
                Transfer {
                    from: self.pool_token_account,
                    to: self.user_token_account,
                    authority: Authority::Pool { address: self.pool_address, bump: self.pool_bump },
                    amount: (amount + self.reward_share()) as u64,
                },
            )
        }
    }

    /// Whether the pool's address and bump are the ones that the program
    /// `program_id` derives for its pool, so that the program can sign for the
    /// pool's holding.
    pub open spec fn authority_is_derived(self, program_id: Address) -> bool {
        program_address(seq![pool_seed()], program_id@) == Some((self.pool_address@, self.pool_bump))
    }

    /// Derives the pool's address anew and refuses a context whose address or
    /// bump differs from it.
    pub fn check_authority(&self, program_id: &Address) -> (result: Result<(), ErrorCode>)
        ensures
            self.authority_is_derived(*program_id) ==> result is Ok,
            !self.authority_is_derived(*program_id) ==> result == Err::<(), ErrorCode>(
                ErrorCode::InvalidAddress,
            ),
    {
        let derived = pool_address(program_id);
        if is_derived(&self.pool_address, self.pool_bump, derived) {
            Ok(())
        } else {
            Err(ErrorCode::InvalidAddress)
        }
    }

    /// Checks a withdrawal of `amount` and names the transfer that pays it.
    pub fn transfer(&self, amount: u64) -> (request: Result<Transfer, ErrorCode>)
        ensures
            request == self.spec_transfer(amount),
    {
        if self.user_stake.amount < amount {
            return Err(ErrorCode::InsufficientStake);
        }
        if amount == 0 {
            return Err(ErrorCode::ZeroAmount);
        }
        proof {
            lemma_address_by_bytes(self.user_stake.user, self.user);
        }
        if self.user_stake.user != self.user {
            return Err(ErrorCode::Unauthorized);
        }
        if amount > self.pool.total_staked {
            return Err(ErrorCode::ArithmeticOverflow);
        }
        let share = match reward_share(
            self.pool.total_rewards,
            self.user_stake.amount,
            self.pool.total_staked,
        ) {
            Ok(share) => share,
            Err(_) => {
                return Err(ErrorCode::ArithmeticOverflow);
            },
        };
        if share > self.pool.total_rewards {
            return Err(ErrorCode::ArithmeticOverflow);
        }
        match amount.checked_add(share) {
            Some(total) => Ok(
                Transfer {
                    from: self.pool_token_account,
                    to: self.user_token_account,
                    authority: Authority::Pool { address: self.pool_address, bump: self.pool_bump },
                    amount: total,
                },
            ),
            None => Err(ErrorCode::ArithmeticOverflow),
        }
    }
}

/// The context after a withdrawal of `amount` whose transfer ended as
/// `transfer` says, or the reason for which nothing changed.
///
/// Where the request stands and the transfer was completed, the pool's total
/// stake and the depositor's stake fall by `amount`, and the pool's rewards
/// fall by the depositor's share.
pub open spec fn withdraw_outcome(ctx: Withdraw, amount: u64, transfer: TransferOutcome) -> Result<
    Withdraw,
    ErrorCode,
> {
    match ctx.spec_transfer(amount) {
        Err(error) => Err(error),
        Ok(_) => match transfer {
            TransferOutcome::Rejected => Err(ErrorCode::TransferFailure),
            TransferOutcome::Completed => Ok(
                Withdraw {
                    pool: Pool {
                        total_staked: (ctx.pool.total_staked - amount) as u64,
                        total_rewards: (ctx.pool.total_rewards - ctx.reward_share()) as u64,
                        ..ctx.pool
                    },
                    user_stake: UserStake {
                        amount: (ctx.user_stake.amount - amount) as u64,
                        ..ctx.user_stake
                    },
                    ..ctx
                },
            ),
        },
    }
}

/// Records a withdrawal of `amount`, given how the transfer named by
/// `ctx.transfer(amount)` ended.
pub fn withdraw(ctx: &mut Withdraw, amount: u64, transfer: TransferOutcome) -> (result: Result<
    (),
    ErrorCode,
>)
    ensures
        match withdraw_outcome(*old(ctx), amount, transfer) {
            Ok(next) => result is Ok && *final(ctx) == next,
            Err(error) => result == Err::<(), ErrorCode>(error) && *final(ctx) == *old(ctx),
        },
{
    let request = match ctx.transfer(amount) {
        Ok(request) => request,
        Err(error) => {
            return Err(error);
        },
    };
    match transfer {
        TransferOutcome::Rejected => Err(ErrorCode::TransferFailure),
        TransferOutcome::Completed => {
            let share = request.amount - amount;
            ctx.pool.total_staked = ctx.pool.total_staked - amount;
            ctx.user_stake.amount = ctx.user_stake.amount - amount;
            ctx.pool.total_rewards = ctx.pool.total_rewards - share;
            Ok(())
        },
    }
}

/// A depositor who withdraws the whole stake `a` from a pool with total stake
/// `S` and rewards `R` is paid `a` and the share `R * a / S`, rounded down. The
/// pool keeps the rest of the rewards, the remainder of the division with it,
/// and the depositor's record stays, with nothing staked.
///
/// This holds of every withdrawal that is not refused: the stake is not zero,
/// the record is the caller's, the stake is part of the pool's total, and
/// principal and share fit in 64 bits together.
pub proof fn lemma_full_withdrawal(ctx: Withdraw)
    requires
        0 < ctx.user_stake.amount <= ctx.pool.total_staked,
        ctx.user_stake.user == ctx.user,
        ctx.user_stake.amount + ctx.reward_share() <= u64::MAX,
    ensures
        ctx.spec_transfer(ctx.user_stake.amount) matches Ok(request) && request.amount
            == ctx.user_stake.amount + ctx.reward_share(),
        withdraw_outcome(ctx, ctx.user_stake.amount, TransferOutcome::Completed) matches Ok(next)
            && next.pool.total_rewards == ctx.pool.total_rewards - ctx.reward_share()
            && next.pool.total_staked == ctx.pool.total_staked - ctx.user_stake.amount
            && next.user_stake.amount == 0,
        ctx.reward_share() == (ctx.pool.total_rewards * ctx.user_stake.amount)
            / (ctx.pool.total_staked as int),
{
    lemma_share_within_rewards(
        ctx.pool.total_rewards as int,
        ctx.user_stake.amount as int,
        ctx.pool.total_staked as int,
    );
}

/// A withdrawal of nothing, and one of more than the depositor has staked, are
/// refused whatever the transfer service says, so that they change no record.
pub proof fn lemma_withdrawal_out_of_bounds(ctx: Withdraw, amount: u64, transfer: TransferOutcome)
    requires
        amount == 0 || amount > ctx.user_stake.amount,
    ensures
        amount > ctx.user_stake.amount ==> withdraw_outcome(ctx, amount, transfer) == Err::<
            Withdraw,
            ErrorCode,
        >(ErrorCode::InsufficientStake),
        amount == 0 ==> withdraw_outcome(ctx, amount, transfer) == Err::<Withdraw, ErrorCode>(
            ErrorCode::ZeroAmount,
        ),
{
}

} // verus!
