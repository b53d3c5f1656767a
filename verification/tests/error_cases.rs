use iln_contracts::access::{lock_reentrancy, unlock_reentrancy};
use iln_contracts::errors::ContractError;
use iln_contracts::storage::Store;

// 32. ArithmeticOverflow
#[test]
fn test_err_arithmetic_overflow() {
    let err = ContractError::ArithmeticOverflow;
    assert_eq!(err.code(), 32);
}

// 33. FeeOnTransferToken
#[test]
fn test_err_fee_on_transfer_token() {
    let err = ContractError::FeeOnTransferToken;
    assert_eq!(err.code(), 33);
}

// 36. AmountTooSmall
#[test]
fn test_err_amount_too_small() {
    let err = ContractError::AmountTooSmall;
    assert_eq!(err.code(), 36);
}

// 37. Reentrancy
#[test]
fn test_err_reentrancy() {
    let mut store = Store::new();
    assert!(lock_reentrancy(&mut store).is_ok());
    let reentrant = lock_reentrancy(&mut store);
    assert_eq!(reentrant, Err(ContractError::Reentrancy));
    unlock_reentrancy(&mut store);
}

#[test]
fn error_codes_follow_the_documented_table() {
    assert_eq!(ContractError::InvoiceNotFound.code(), 1);
    assert_eq!(ContractError::Unauthorized.code(), 5);
    assert_eq!(ContractError::ContractPaused.code(), 26);
    assert_eq!(ContractError::Reentrancy.code(), 37);
    assert_eq!(ContractError::RateLimited.code(), 38);
    assert_eq!(ContractError::QueueNotMature.code(), 39);
}
