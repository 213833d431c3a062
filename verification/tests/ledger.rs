use account_freeze::{
    AccountFreezeContract, Address, DataKey, Ledger, Transaction, TransferError,
};

fn a() -> Address {
    Address { id: 1 }
}

fn b() -> Address {
    Address { id: 2 }
}

fn c() -> Address {
    Address { id: 3 }
}

#[test]
fn fresh_ledger_has_defaults() {
    let env = Ledger::new();
    assert!(!AccountFreezeContract::is_account_frozen(&env, a()));
    assert_eq!(AccountFreezeContract::get_balance(&env, a()), 0);
    assert!(AccountFreezeContract::get_transaction_history(&env, a()).is_empty());
    assert!(!env.has(DataKey::FrozenAccount(a())));
    assert!(!env.has(DataKey::Balance(a())));
    assert!(!env.has(DataKey::TransactionHistory(a())));
}

#[test]
fn freeze_then_unfreeze() {
    let mut env = Ledger::new();
    assert!(!AccountFreezeContract::is_account_frozen(&env, a()));
    AccountFreezeContract::freeze_account(&mut env, a());
    assert!(AccountFreezeContract::is_account_frozen(&env, a()));
    assert!(!AccountFreezeContract::is_account_frozen(&env, b()));
    AccountFreezeContract::set_balance(&mut env, a(), 5);
    AccountFreezeContract::set_balance(&mut env, b(), 5);
    assert!(AccountFreezeContract::is_account_frozen(&env, a()));
    AccountFreezeContract::unfreeze_account(&mut env, a());
    assert!(!AccountFreezeContract::is_account_frozen(&env, a()));
    assert!(!env.has(DataKey::FrozenAccount(a())));
}

#[test]
fn freeze_is_idempotent() {
    let mut once = Ledger::new();
    AccountFreezeContract::freeze_account(&mut once, a());
    let mut twice = Ledger::new();
    AccountFreezeContract::freeze_account(&mut twice, a());
    AccountFreezeContract::freeze_account(&mut twice, a());
    for account in [a(), b()] {
        assert_eq!(
            AccountFreezeContract::is_account_frozen(&once, account),
            AccountFreezeContract::is_account_frozen(&twice, account)
        );
        assert_eq!(
            AccountFreezeContract::get_balance(&once, account),
            AccountFreezeContract::get_balance(&twice, account)
        );
    }
    assert!(AccountFreezeContract::is_account_frozen(&twice, a()));
}

#[test]
fn unfreeze_is_idempotent() {
    let mut env = Ledger::new();
    AccountFreezeContract::unfreeze_account(&mut env, a());
    assert!(!AccountFreezeContract::is_account_frozen(&env, a()));
    AccountFreezeContract::freeze_account(&mut env, a());
    AccountFreezeContract::unfreeze_account(&mut env, a());
    AccountFreezeContract::unfreeze_account(&mut env, a());
    assert!(!AccountFreezeContract::is_account_frozen(&env, a()));
}

#[test]
fn set_balance_overwrites_without_validation() {
    let mut env = Ledger::new();
    AccountFreezeContract::set_balance(&mut env, a(), 100);
    assert_eq!(AccountFreezeContract::get_balance(&env, a()), 100);
    AccountFreezeContract::set_balance(&mut env, a(), -7);
    assert_eq!(AccountFreezeContract::get_balance(&env, a()), -7);
    assert_eq!(AccountFreezeContract::get_balance(&env, b()), 0);
    assert!(env.has(DataKey::Balance(a())));
    assert!(!env.has(DataKey::Balance(b())));
}

#[test]
fn stored_zero_differs_from_never_set() {
    let mut env = Ledger::new();
    AccountFreezeContract::set_balance(&mut env, a(), 0);
    assert_eq!(AccountFreezeContract::get_balance(&env, a()), 0);
    assert_eq!(AccountFreezeContract::get_balance(&env, b()), 0);
    assert!(env.has(DataKey::Balance(a())));
    assert!(!env.has(DataKey::Balance(b())));
}

#[test]
fn transfer_moves_amount_and_records_it() {
    let mut env = Ledger::new();
    AccountFreezeContract::set_balance(&mut env, a(), 100);
    AccountFreezeContract::set_balance(&mut env, b(), 0);
    assert_eq!(AccountFreezeContract::transfer(&mut env, a(), b(), 40, 1234), Ok(()));
    assert_eq!(AccountFreezeContract::get_balance(&env, a()), 60);
    assert_eq!(AccountFreezeContract::get_balance(&env, b()), 40);
    let record = Transaction { from: a(), to: b(), amount: 40, timestamp: 1234 };
    assert_eq!(AccountFreezeContract::get_transaction_history(&env, a()), vec![record]);
    assert_eq!(AccountFreezeContract::get_transaction_history(&env, b()), vec![record]);
    assert!(AccountFreezeContract::get_transaction_history(&env, c()).is_empty());
    assert!(env.has(DataKey::TransactionHistory(a())));
    assert!(env.has(DataKey::TransactionHistory(b())));
}

#[test]
fn transfer_of_whole_balance_is_accepted() {
    let mut env = Ledger::new();
    AccountFreezeContract::set_balance(&mut env, a(), 40);
    assert_eq!(AccountFreezeContract::transfer(&mut env, a(), b(), 40, 0), Ok(()));
    assert_eq!(AccountFreezeContract::get_balance(&env, a()), 0);
    assert_eq!(AccountFreezeContract::get_balance(&env, b()), 40);
}

#[test]
fn histories_keep_commit_order() {
    let mut env = Ledger::new();
    AccountFreezeContract::set_balance(&mut env, a(), 100);
    assert_eq!(AccountFreezeContract::transfer(&mut env, a(), b(), 10, 1), Ok(()));
    assert_eq!(AccountFreezeContract::transfer(&mut env, b(), c(), 4, 2), Ok(()));
    assert_eq!(AccountFreezeContract::transfer(&mut env, a(), c(), 30, 3), Ok(()));
    let first = Transaction { from: a(), to: b(), amount: 10, timestamp: 1 };
    let second = Transaction { from: b(), to: c(), amount: 4, timestamp: 2 };
    let third = Transaction { from: a(), to: c(), amount: 30, timestamp: 3 };
    assert_eq!(AccountFreezeContract::get_transaction_history(&env, a()), vec![first, third]);
    assert_eq!(AccountFreezeContract::get_transaction_history(&env, b()), vec![first, second]);
    assert_eq!(AccountFreezeContract::get_transaction_history(&env, c()), vec![second, third]);
    assert_eq!(AccountFreezeContract::get_balance(&env, a()), 60);
    assert_eq!(AccountFreezeContract::get_balance(&env, b()), 6);
    assert_eq!(AccountFreezeContract::get_balance(&env, c()), 34);
}

#[test]
fn transfers_conserve_the_total() {
    let mut env = Ledger::new();
    AccountFreezeContract::set_balance(&mut env, a(), 70);
    AccountFreezeContract::set_balance(&mut env, b(), 20);
    AccountFreezeContract::set_balance(&mut env, c(), 10);
    let moves = [(a(), b(), 30), (b(), c(), 45), (c(), a(), 55), (a(), c(), 1000), (b(), b(), 1)];
    for (from, to, amount) in moves {
        let _ = AccountFreezeContract::transfer(&mut env, from, to, amount, 9);
        let total = AccountFreezeContract::get_balance(&env, a())
            + AccountFreezeContract::get_balance(&env, b())
            + AccountFreezeContract::get_balance(&env, c());
        assert_eq!(total, 100);
    }
    assert_eq!(AccountFreezeContract::get_balance(&env, a()), 95);
    assert_eq!(AccountFreezeContract::get_balance(&env, b()), 5);
    assert_eq!(AccountFreezeContract::get_balance(&env, c()), 0);
}

fn snapshot(env: &Ledger) -> Vec<(bool, i128, Vec<Transaction>)> {
    let mut all = Vec::new();
    for account in [a(), b(), c()] {
        all.push((
            AccountFreezeContract::is_account_frozen(env, account),
            AccountFreezeContract::get_balance(env, account),
            AccountFreezeContract::get_transaction_history(env, account),
        ));
    }
    all
}

fn busy_ledger() -> Ledger {
    let mut env = Ledger::new();
    AccountFreezeContract::set_balance(&mut env, a(), 100);
    AccountFreezeContract::set_balance(&mut env, b(), 50);
    assert_eq!(AccountFreezeContract::transfer(&mut env, a(), b(), 10, 5), Ok(()));
    env
}

#[test]
fn self_transfer_is_invalid() {
    let mut env = busy_ledger();
    let before = snapshot(&env);
    for amount in [1, 90, 1000, 0, -3] {
        assert_eq!(
            AccountFreezeContract::transfer(&mut env, a(), a(), amount, 6),
            Err(TransferError::InvalidTransfer)
        );
    }
    AccountFreezeContract::freeze_account(&mut env, c());
    assert_eq!(
        AccountFreezeContract::transfer(&mut env, c(), c(), 1, 6),
        Err(TransferError::InvalidTransfer)
    );
    AccountFreezeContract::unfreeze_account(&mut env, c());
    assert_eq!(snapshot(&env), before);
}

#[test]
fn zero_and_negative_amounts_are_invalid() {
    let mut env = busy_ledger();
    let before = snapshot(&env);
    assert_eq!(
        AccountFreezeContract::transfer(&mut env, a(), b(), 0, 6),
        Err(TransferError::InvalidTransfer)
    );
    assert_eq!(
        AccountFreezeContract::transfer(&mut env, a(), b(), -5, 6),
        Err(TransferError::InvalidTransfer)
    );
    assert_eq!(snapshot(&env), before);
}

#[test]
fn frozen_sender_is_refused() {
    let mut env = busy_ledger();
    AccountFreezeContract::freeze_account(&mut env, a());
    let before = snapshot(&env);
    assert_eq!(
        AccountFreezeContract::transfer(&mut env, a(), b(), 10, 6),
        Err(TransferError::FrozenSender)
    );
    assert_eq!(snapshot(&env), before);
    AccountFreezeContract::freeze_account(&mut env, b());
    assert_eq!(
        AccountFreezeContract::transfer(&mut env, a(), b(), 10, 6),
        Err(TransferError::FrozenSender)
    );
    assert_eq!(
        AccountFreezeContract::transfer(&mut env, a(), b(), 100000, 6),
        Err(TransferError::FrozenSender)
    );
}

#[test]
fn frozen_recipient_is_refused() {
    let mut env = busy_ledger();
    AccountFreezeContract::freeze_account(&mut env, b());
    let before = snapshot(&env);
    assert_eq!(
        AccountFreezeContract::transfer(&mut env, a(), b(), 10, 6),
        Err(TransferError::FrozenRecipient)
    );
    assert_eq!(
        AccountFreezeContract::transfer(&mut env, a(), b(), 100000, 6),
        Err(TransferError::FrozenRecipient)
    );
    assert_eq!(snapshot(&env), before);
    AccountFreezeContract::unfreeze_account(&mut env, b());
    assert_eq!(AccountFreezeContract::transfer(&mut env, a(), b(), 10, 6), Ok(()));
}

#[test]
fn insufficient_balance_is_refused() {
    let mut env = busy_ledger();
    let before = snapshot(&env);
    assert_eq!(
        AccountFreezeContract::transfer(&mut env, a(), b(), 91, 6),
        Err(TransferError::InsufficientBalance)
    );
    assert_eq!(
        AccountFreezeContract::transfer(&mut env, c(), a(), 1, 6),
        Err(TransferError::InsufficientBalance)
    );
    assert_eq!(snapshot(&env), before);
}

#[test]
fn try_transfer_stops_at_the_largest_balance() {
    let mut env = Ledger::new();
    AccountFreezeContract::set_balance(&mut env, a(), 10);
    AccountFreezeContract::set_balance(&mut env, b(), i128::MAX - 3);
    let before = snapshot(&env);
    assert_eq!(AccountFreezeContract::try_transfer(&mut env, a(), b(), 4, 1), None);
    assert_eq!(snapshot(&env), before);
    assert_eq!(
        AccountFreezeContract::try_transfer(&mut env, a(), b(), 11, 1),
        Some(Err(TransferError::InsufficientBalance))
    );
    assert_eq!(snapshot(&env), before);
    assert_eq!(AccountFreezeContract::try_transfer(&mut env, a(), b(), 3, 1), Some(Ok(())));
    assert_eq!(AccountFreezeContract::get_balance(&env, a()), 7);
    assert_eq!(AccountFreezeContract::get_balance(&env, b()), i128::MAX);
}

#[test]
fn free_functions_forward() {
    let mut env = Ledger::new();
    account_freeze::set_balance(&mut env, a(), 100);
    account_freeze::freeze_account(&mut env, b());
    assert!(account_freeze::is_account_frozen(&env, b()));
    assert_eq!(
        account_freeze::transfer(&mut env, a(), b(), 40, 8),
        Err(TransferError::FrozenRecipient)
    );
    account_freeze::unfreeze_account(&mut env, b());
    assert!(!account_freeze::is_account_frozen(&env, b()));
    assert_eq!(account_freeze::transfer(&mut env, a(), b(), 40, 8), Ok(()));
    assert_eq!(account_freeze::get_balance(&env, a()), 60);
    assert_eq!(account_freeze::get_balance(&env, b()), 40);
    assert_eq!(
        account_freeze::get_transaction_history(&env, b()),
        vec![Transaction { from: a(), to: b(), amount: 40, timestamp: 8 }]
    );
}
