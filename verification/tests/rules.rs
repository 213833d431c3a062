use account_freeze::rules::{check_transfer, fits, settle, stored_balance, stored_flag};
use account_freeze::TransferError;

#[test]
fn absent_reads_resolve_to_defaults() {
    assert!(!stored_flag(None));
    assert!(stored_flag(Some(true)));
    assert!(!stored_flag(Some(false)));
    assert_eq!(stored_balance(None), 0);
    assert_eq!(stored_balance(Some(17)), 17);
    assert_eq!(stored_balance(Some(-17)), -17);
}

#[test]
fn checks_come_in_order() {
    assert_eq!(check_transfer(false, 5, false, false, 5), Ok(()));
    assert_eq!(check_transfer(true, 5, true, true, 0), Err(TransferError::InvalidTransfer));
    assert_eq!(check_transfer(false, 0, true, true, 0), Err(TransferError::InvalidTransfer));
    assert_eq!(check_transfer(false, -5, false, false, 10), Err(TransferError::InvalidTransfer));
    assert_eq!(check_transfer(false, 5, true, true, 0), Err(TransferError::FrozenSender));
    assert_eq!(check_transfer(false, 5, false, true, 0), Err(TransferError::FrozenRecipient));
    assert_eq!(check_transfer(false, 5, false, false, 4), Err(TransferError::InsufficientBalance));
    assert_eq!(check_transfer(false, 5, false, false, -4), Err(TransferError::InsufficientBalance));
}

#[test]
fn settle_moves_the_amount() {
    assert_eq!(settle(100, 0, 40), (60, 40));
    assert_eq!(settle(40, -10, 40), (0, 30));
    assert_eq!(settle(i128::MAX, 0, i128::MAX), (0, i128::MAX));
}

#[test]
fn fits_guards_the_range() {
    assert!(fits(0, 40));
    assert!(fits(i128::MAX - 1, 1));
    assert!(!fits(i128::MAX, 1));
    assert!(!fits(1, i128::MAX));
    assert!(fits(i128::MIN, 0));
    assert!(!fits(i128::MIN, -1));
    assert!(fits(0, i128::MIN));
    assert!(!fits(-1, i128::MIN));
}

#[test]
fn refusals_have_their_words() {
    assert_eq!(TransferError::InvalidTransfer.message(), "Invalid submission!");
    assert_eq!(TransferError::FrozenSender.message(), "Sender account is frozen");
    assert_eq!(TransferError::FrozenRecipient.message(), "Recipient account is frozen");
    assert_eq!(TransferError::InsufficientBalance.message(), "Insufficient balance");
}
