//! An account ledger with an administrative freeze control.
//!
//! Accounts hold balances, transfers move value between unfrozen accounts,
//! and every committed transfer is recorded in the history of both parties.

use vstd::prelude::*;

pub mod contract;
pub mod laws;
pub mod model;
pub mod rules;
pub mod types;

pub use contract::{AccountFreezeContract, Ledger};
pub use model::{LedgerState, Operation};
pub use types::{Account, Address, DataKey, Transaction, TransferError};

verus! {

/// Stores the freeze flag of `account`.
pub fn freeze_account(env: &mut Ledger, account: Address)
    ensures
        final(env)@ == old(env)@.freeze(account),
{
    AccountFreezeContract::freeze_account(env, account);
}

/// Removes the freeze flag of `account`.
pub fn unfreeze_account(env: &mut Ledger, account: Address)
    ensures
        final(env)@ == old(env)@.unfreeze(account),
{
    AccountFreezeContract::unfreeze_account(env, account);
}

/// Whether `account` is frozen.
pub fn is_account_frozen(env: &Ledger, account: Address) -> (frozen: bool)
    ensures
        frozen == env@.is_frozen(account),
{
    AccountFreezeContract::is_account_frozen(env, account)
}

/// Overwrites the balance of `account`.
pub fn set_balance(env: &mut Ledger, account: Address, amount: i128)
    ensures
        final(env)@ == old(env)@.set_balance(account, amount as int),
{
    AccountFreezeContract::set_balance(env, account, amount);
}

/// The balance of `account`: zero where none is stored.
pub fn get_balance(env: &Ledger, account: Address) -> (balance: i128)
    ensures
        balance == env@.balance(account),
{
    AccountFreezeContract::get_balance(env, account)
}

/// Moves `amount` from `from` to `to` and records the transfer, or refuses
/// and leaves the store as it was.
pub fn transfer(env: &mut Ledger, from: Address, to: Address, amount: i128, timestamp: u64) -> (outcome:
    Result<(), TransferError>)
    requires
        AccountFreezeContract::payable(old(env)@, from, to, amount),
    ensures
        outcome == old(env)@.verdict(from, to, amount as int),
        outcome is Ok ==> final(env)@ == old(env)@.transfer(from, to, amount, timestamp),
        outcome is Err ==> final(env)@ == old(env)@,
{
    AccountFreezeContract::transfer(env, from, to, amount, timestamp)
}

/// The history of `account`, oldest record first.
pub fn get_transaction_history(env: &Ledger, account: Address) -> (history: Vec<Transaction>)
    ensures
        history@ == env@.history(account),
{
    AccountFreezeContract::get_transaction_history(env, account)
}

} // verus!
