use vstd::prelude::*;

verus! {

/// An opaque account identifier. Two identifiers name the same account
/// exactly when their `id` fields are equal.
#[derive(Clone, Copy, Debug, PartialEq, Eq, Structural)]
pub struct Address {
    pub id: u64,
}

/// The record of one committed transfer. It is stored once under the
/// sender and once under the recipient and never changes afterwards.
#[derive(Clone, Copy, Debug, PartialEq, Eq, Structural)]
pub struct Transaction {
    pub from: Address,
    pub to: Address,
    pub amount: i128,
    pub timestamp: u64,
}

/// A ledger participant.
#[derive(Clone, Copy, Debug, PartialEq, Eq, Structural)]
pub struct Account {
    pub address: Address,
}

/// The three namespaces of the store, each keyed by an account.
#[derive(Clone, Copy, Debug, PartialEq, Eq, Structural)]
pub enum DataKey {
    FrozenAccount(Address),
    Balance(Address),
    TransactionHistory(Address),
}

/// Why a transfer was refused.
#[derive(Clone, Copy, Debug, PartialEq, Eq, Structural)]
pub enum TransferError {
    /// Sender and recipient are the same account, or the amount is not positive.
    InvalidTransfer,
    /// The sender is frozen.
    FrozenSender,
    /// The recipient is frozen.
    FrozenRecipient,
    /// The sender holds less than the amount.
    InsufficientBalance,
}

impl TransferError {
    /// The words in which the refusal is reported.
    pub open spec fn text(self) -> Seq<char> {
        match self {
            TransferError::InvalidTransfer => "Invalid submission!"@,
            TransferError::FrozenSender => "Sender account is frozen"@,
            TransferError::FrozenRecipient => "Recipient account is frozen"@,
            TransferError::InsufficientBalance => "Insufficient balance"@,
        }
    }

    /// The words in which the refusal is reported to the caller.
    pub fn message(&self) -> (words: &'static str)
        ensures
            words@ == self.text(),
    {
        match self {
            TransferError::InvalidTransfer => "Invalid submission!",
            TransferError::FrozenSender => "Sender account is frozen",
            TransferError::FrozenRecipient => "Recipient account is frozen",
            TransferError::InsufficientBalance => "Insufficient balance",
        }
    }
}

} // verus!
