//! Ledger rules of a custodial staking pool.
//!
//! One shared pool takes token deposits from many depositors, records each
//! depositor's principal, takes reward deposits from the pool's owner, and pays
//! a withdrawing depositor the principal together with a share of the rewards
//! in proportion to the depositor's part of the staked total.
//!
//! The library decides and records; it moves no tokens. Every operation names
//! the transfer that the asset transfer service has to carry out, and changes
//! the records only once it is told how that transfer ended.

pub mod address;
pub mod error;
pub mod instructions;
pub mod ledger;
pub mod reward;
pub mod state;
pub mod transfer;

pub use crate::address::Address;
pub use crate::error::ErrorCode;
pub use crate::instructions::distribute_rewards::{distribute_rewards, DistributeRewards};
pub use crate::instructions::initialize::{initialize, Initialize};
pub use crate::instructions::stake::{stake, Stake};
pub use crate::instructions::withdraw::{withdraw, Withdraw};
pub use crate::state::{Pool, UserStake};
pub use crate::transfer::{Authority, Transfer, TransferOutcome};
