//! The reasons for which an operation is refused.

use vstd::prelude::*;

verus! {

/// Why an operation left every record as it was.
#[derive(Clone, Copy, Debug, PartialEq, Eq, Structural)]
pub enum ErrorCode {
    /// A withdrawal asks for more than the depositor has staked.
    InsufficientStake,
    /// The amount of a stake, a reward deposit or a withdrawal is zero.
    ZeroAmount,
    /// A counter would leave the range of 64 bits.
    ArithmeticOverflow,
    /// The asset transfer service rejected the transfer.
    TransferFailure,
    /// The caller is not the one that the record names.
    Unauthorized,
    /// The pool's record exists already.
    AlreadyInitialized,
    /// An address is not the one derived for it.
    InvalidAddress,
}

impl ErrorCode {
    /// The message shown to the caller.
    pub fn message(&self) -> (text: String)
        ensures
            text@ == self.spec_message(),
    {
        match self {
            ErrorCode::InsufficientStake => "Insufficient stake amount".to_string(),
            ErrorCode::ZeroAmount => "Amount must be greater than zero".to_string(),
            ErrorCode::ArithmeticOverflow => "Arithmetic overflow".to_string(),
            ErrorCode::TransferFailure => "Token transfer failed".to_string(),
            ErrorCode::Unauthorized => "Caller does not own the record".to_string(),
            ErrorCode::AlreadyInitialized => "Pool already initialized".to_string(),
            ErrorCode::InvalidAddress => "Address does not match its derivation".to_string(),
        }
    }

    /// The text of `message`.
    pub open spec fn spec_message(&self) -> Seq<char> {
        match self {
            ErrorCode::InsufficientStake => "Insufficient stake amount"@,
            ErrorCode::ZeroAmount => "Amount must be greater than zero"@,
            ErrorCode::ArithmeticOverflow => "Arithmetic overflow"@,
            ErrorCode::TransferFailure => "Token transfer failed"@,
            ErrorCode::Unauthorized => "Caller does not own the record"@,
            ErrorCode::AlreadyInitialized => "Pool already initialized"@,
            ErrorCode::InvalidAddress => "Address does not match its derivation"@,
        }
    }
}

} // verus!
