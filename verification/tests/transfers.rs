//! The two transfer adapters on concrete balances.

use rentable_sol::{transfer_asset, transfer_value, Errors};

#[test]
fn asset_transfer_moves_one_unit() {
    assert_eq!(transfer_asset(1, 0), Ok((0, 1)));
    assert_eq!(transfer_asset(3, 9), Ok((2, 10)));
}

#[test]
fn asset_transfer_fails_closed() {
    assert_eq!(transfer_asset(0, 0), Err(Errors::InsufficientBalance));
    assert_eq!(transfer_asset(1, u64::MAX), Err(Errors::InsufficientBalance));
}

#[test]
fn value_transfer_moves_the_amount() {
    assert_eq!(transfer_value(100, 7, 100), Ok((0, 107)));
    assert_eq!(transfer_value(500, 0, 0), Ok((500, 0)));
}

#[test]
fn value_transfer_fails_closed() {
    assert_eq!(transfer_value(99, 0, 100), Err(Errors::InsufficientBalance));
    assert_eq!(transfer_value(100, u64::MAX, 1), Err(Errors::InsufficientBalance));
}
