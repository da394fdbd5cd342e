//! The ways in which an operation of the session can be turned down.

use vstd::prelude::*;

verus! {

/// Why an operation was refused. A refused operation changes nothing.
#[derive(Clone, Copy, Debug, PartialEq, Eq, Structural)]
pub enum BankError {
    /// A user with the same tax id is already registered.
    DuplicateUser,
    /// No registered user has the tax id an account was asked for.
    UserNotFound,
    /// The session has no account to operate on.
    NoAccounts,
    /// The amount is zero or negative, or its text was not a number.
    InvalidAmount,
    /// The amount is more than the owner's balance.
    InsufficientBalance,
    /// The amount is more than a single withdrawal may take.
    ExceedsPerOperationLimit,
    /// The session has already made all the withdrawals it is allowed.
    WithdrawalLimitExceeded,
    /// The menu does not know the command.
    UnrecognizedCommand,
}

impl BankError {
    /// The text shown to the operator for this refusal.
    pub open spec fn message_text(self) -> Seq<char> {
        match self {
            BankError::DuplicateUser => "Operation failed: a user with this tax id already exists."@,
            BankError::UserNotFound => "Operation failed: user not found, no account was created."@,
            BankError::NoAccounts => "Operation failed: no accounts available."@,
            BankError::InvalidAmount => "Operation failed: invalid amount."@,
            BankError::InsufficientBalance => "Operation failed: insufficient balance."@,
            BankError::ExceedsPerOperationLimit => "Operation failed: the amount exceeds limit per withdrawal."@,
            BankError::WithdrawalLimitExceeded => "Operation failed: too many withdrawals."@,
            BankError::UnrecognizedCommand => "Invalid operation, please choose again."@,
        }
    }

    /// Returns the text shown to the operator for this refusal.
    pub fn message(&self) -> (text: &'static str)
        ensures
            text@ == self.message_text(),
    {
        match self {
            BankError::DuplicateUser => "Operation failed: a user with this tax id already exists.",
            BankError::UserNotFound => "Operation failed: user not found, no account was created.",
            BankError::NoAccounts => "Operation failed: no accounts available.",
            BankError::InvalidAmount => "Operation failed: invalid amount.",
            BankError::InsufficientBalance => "Operation failed: insufficient balance.",
            BankError::ExceedsPerOperationLimit => "Operation failed: the amount exceeds limit per withdrawal.",
            BankError::WithdrawalLimitExceeded => "Operation failed: too many withdrawals.",
            BankError::UnrecognizedCommand => "Invalid operation, please choose again.",
        }
    }
}

} // verus!
