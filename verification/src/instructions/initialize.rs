//! Creating the pool's record.

use crate::address::Address;
use crate::error::ErrorCode;
use crate::state::Pool;
use vstd::prelude::*;

verus! {

/// What an initialization names: the place of the pool's record, which is
/// `None` while no record exists there, and the owner to be.
#[derive(Clone, Copy, Debug, PartialEq, Eq)]
pub struct Initialize {
    pub pool: Option<Pool>,
    pub owner: Address,
}

/// The context after an initialization, or the reason for which nothing
/// changed: a record that exists is never replaced, and a new pool belongs to
/// `ctx.owner` and holds neither stake nor rewards.
pub open spec fn initialize_outcome(ctx: Initialize) -> Result<Initialize, ErrorCode> {
    match ctx.pool {
        Some(_) => Err(ErrorCode::AlreadyInitialized),
        None => Ok(
            Initialize {
                pool: Some(Pool { owner: ctx.owner, total_staked: 0, total_rewards: 0 }),
                ..ctx
            },
        ),
    }
}

/// Creates the pool's record. No tokens move.
pub fn initialize(ctx: &mut Initialize) -> (result: Result<(), ErrorCode>)
    ensures
        match initialize_outcome(*old(ctx)) {
            Ok(next) => result is Ok && *final(ctx) == next,
            Err(error) => result == Err::<(), ErrorCode>(error) && *final(ctx) == *old(ctx),
        },
{
    if ctx.pool.is_some() {
        return Err(ErrorCode::AlreadyInitialized);
    }
    ctx.pool = Some(Pool { owner: ctx.owner, total_staked: 0, total_rewards: 0 });
    Ok(())
}

/// A pool is created once. After an initialization that succeeded, every
/// further one fails, whoever asks to be the owner, and so leaves the pool of
/// the first call as it is.
pub proof fn lemma_initialize_once(ctx: Initialize, again: Address)
    requires
        initialize_outcome(ctx) is Ok,
    ensures
        initialize_outcome(Initialize { owner: again, ..initialize_outcome(ctx)->Ok_0 }) == Err::<
            Initialize,
            ErrorCode,
        >(ErrorCode::AlreadyInitialized),
{
}

} // verus!
