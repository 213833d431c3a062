use vstd::prelude::*;
use crate::types::TransferError;

verus! {

/// The outcome of validating a transfer, from the facts it depends on.
/// The checks are made in this order, and the first that fails decides.
pub open spec fn transfer_verdict(
    same_account: bool,
    amount: int,
    sender_frozen: bool,
    recipient_frozen: bool,
    sender_balance: int,
) -> Result<(), TransferError> {
    if same_account || amount <= 0 {
        Err(TransferError::InvalidTransfer)
    } else if sender_frozen {
        Err(TransferError::FrozenSender)
    } else if recipient_frozen {
        Err(TransferError::FrozenRecipient)
    } else if sender_balance < amount {
        Err(TransferError::InsufficientBalance)
    } else {
        Ok(())
    }
}

/// The freeze flag that a store read stands for: an absent flag means not frozen.
pub open spec fn flag_of(stored: Option<bool>) -> bool {
    stored == Some(true)
}

/// The balance that a store read stands for: an absent balance is zero.
pub open spec fn balance_of(stored: Option<i128>) -> int {
    match stored {
        Some(b) => b as int,
        None => 0,
    }
}

/// Resolves a freeze flag read from the store.
pub fn stored_flag(stored: Option<bool>) -> (frozen: bool)
    ensures
        frozen == flag_of(stored),
{
    match stored {
        Some(flag) => flag,
        None => false,
    }
}

/// Resolves a balance read from the store.
pub fn stored_balance(stored: Option<i128>) -> (balance: i128)
    ensures
        balance == balance_of(stored),
{
    match stored {
        Some(b) => b,
        None => 0,
    }
}

/// Validates a transfer without touching any state.
pub fn check_transfer(
    same_account: bool,
    amount: i128,
    sender_frozen: bool,
    recipient_frozen: bool,
    sender_balance: i128,
) -> (verdict: Result<(), TransferError>)
    ensures
        verdict == transfer_verdict(
            same_account,
            amount as int,
            sender_frozen,
            recipient_frozen,
            sender_balance as int,
        ),
{
    if same_account || amount <= 0 {
        Err(TransferError::InvalidTransfer)
    } else if sender_frozen {
        Err(TransferError::FrozenSender)
    } else if recipient_frozen {
        Err(TransferError::FrozenRecipient)
    } else if sender_balance < amount {
        Err(TransferError::InsufficientBalance)
    } else {
        Ok(())
    }
}

/// Says whether a recipient holding `recipient_balance` can take `amount`
/// more without leaving the range of a stored balance.
pub fn fits(recipient_balance: i128, amount: i128) -> (ok: bool)
    ensures
        ok == (i128::MIN <= recipient_balance + amount <= i128::MAX),
{
    if amount >= 0 {
        recipient_balance <= i128::MAX - amount
    } else {
        recipient_balance >= i128::MIN - amount
    }
}

/// The two balances after a validated transfer: the sender's, then the recipient's.
pub fn settle(sender_balance: i128, recipient_balance: i128, amount: i128) -> (after: (i128, i128))
    requires
        0 < amount <= sender_balance,
        recipient_balance + amount <= i128::MAX,
    ensures
        after.0 == sender_balance - amount,
        after.1 == recipient_balance + amount,
{
    (sender_balance - amount, recipient_balance + amount)
}

} // verus!
