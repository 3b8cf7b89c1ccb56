//! The records that the account store keeps for a pool.

use crate::address::Address;
use vstd::prelude::*;

verus! {

/// The one record of a pool: its owner and its two running totals.
#[derive(Clone, Copy, Debug, PartialEq, Eq)]
pub struct Pool {
    /// The only address that may deposit rewards.
    pub owner: Address,
    /// The principal of all depositors that the pool holds.
    pub total_staked: u64,
    /// The rewards deposited and not yet paid out.
    pub total_rewards: u64,
}

/// The record of one depositor.
#[derive(Clone, Copy, Debug, PartialEq, Eq)]
pub struct UserStake {
    /// The depositor that the record belongs to.
    pub user: Address,
    /// The principal that the depositor has staked.
    pub amount: u64,
}

} // verus!
