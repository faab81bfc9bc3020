//! Error kinds reported by the lending operations.

use vstd::prelude::*;

verus! {

/// Why an operation was refused.
///
/// Every refusal leaves the records handed to the operation exactly as they
/// were and asks for no transfer.
#[derive(Clone, Copy, Debug, PartialEq, Eq, Structural)]
pub enum ErrorCode {
    /// The liquidity account supplied with the operation is not held by the
    /// reserve it was named with.
    InvalidReserveAccount,
    /// The caller is not the owner recorded on the position.
    InvalidOwner,
    /// A withdrawal asks for more than the deposited balance.
    InsufficientFunds,
    /// A borrow would take the debt above the borrow limit.
    InsufficientCollateral,
    /// A repayment is larger than the outstanding debt.
    ExcessiveRepayment,
    /// A balance would leave the range of a `u64`.
    ArithmeticOverflow,
    /// A record already exists where a new one was to be created.
    StorageCollision,
    /// A record that the operation needs does not exist.
    StorageNotFound,
    /// A collateral factor or borrow rate lies outside 0..=100.
    InvalidPercentage,
}

impl ErrorCode {
    /// The human-readable text that belongs to each error kind.
    pub open spec fn message_text(self) -> Seq<char> {
        match self {
            ErrorCode::InvalidReserveAccount => "Invalid reserve account"@,
            ErrorCode::InvalidOwner => "Invalid owner"@,
            ErrorCode::InsufficientFunds => "Insufficient funds for withdrawal"@,
            ErrorCode::InsufficientCollateral => "Insufficient collateral for borrow"@,
            ErrorCode::ExcessiveRepayment => "Repayment amount exceeds borrowed amount"@,
            ErrorCode::ArithmeticOverflow => "Arithmetic overflow"@,
            ErrorCode::StorageCollision => "Record already exists"@,
            ErrorCode::StorageNotFound => "Record not found"@,
            ErrorCode::InvalidPercentage => "Percentage out of range"@,
        }
    }

    /// Describes the error for display to a user.
    pub fn message(&self) -> (text: &'static str)
        ensures
            text@ == self.message_text(),
    {
        match self {
            ErrorCode::InvalidReserveAccount => "Invalid reserve account",
            ErrorCode::InvalidOwner => "Invalid owner",
            ErrorCode::InsufficientFunds => "Insufficient funds for withdrawal",
            ErrorCode::InsufficientCollateral => "Insufficient collateral for borrow",
            ErrorCode::ExcessiveRepayment => "Repayment amount exceeds borrowed amount",
            ErrorCode::ArithmeticOverflow => "Arithmetic overflow",
            ErrorCode::StorageCollision => "Record already exists",
            ErrorCode::StorageNotFound => "Record not found",
            ErrorCode::InvalidPercentage => "Percentage out of range",
        }
    }
}

} // verus!
