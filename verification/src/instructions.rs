//! The four operations on a pool.
//!
//! Each operation works on a context: the records and addresses that the call
//! names, as the account store handed them over. An operation that moves
//! tokens comes in two steps. The context's `transfer` checks the request and
//! names the transfer to be made. The operation itself takes the answer of
//! the asset transfer service and changes the records only where the transfer
//! was completed. Whenever an operation fails, the context is left as it was.

pub mod distribute_rewards;
pub mod initialize;
pub mod stake;
pub mod withdraw;
