//! Models of the two opaque host transfer primitives.
//!
//! The host ledger physically moves assets and native value; the core only
//! decides whether a move is admissible and what the balances are afterwards.
//! Both adapters are all-or-nothing: they either return both updated balances
//! or fail with a typed error and change nothing.

use vstd::prelude::*;

use crate::errors::Errors;

verus! {

/// A one-unit asset move from `from` to `to` is admissible: the source holds
/// the unit and the destination counter does not overflow.
pub open spec fn asset_transfer_ok(from: u64, to: u64) -> bool {
    from >= 1 && to < u64::MAX
}

/// A native-value move of `amount` from `from` to `to` is admissible: the
/// payer covers the amount and the payee's balance does not overflow.
pub open spec fn value_transfer_ok(from: u64, to: u64, amount: u64) -> bool {
    from >= amount && to + amount <= u64::MAX
}

/// Custody transfer adapter: moves exactly one asset unit between two custody
/// accounts, returning the updated unit counts `(from, to)`.
pub fn transfer_asset(from: u64, to: u64) -> (r: Result<(u64, u64), Errors>)
    ensures
        asset_transfer_ok(from, to) ==> r == Ok::<(u64, u64), Errors>(
            ((from - 1) as u64, (to + 1) as u64),
        ),
        !asset_transfer_ok(from, to) ==> r == Err::<(u64, u64), Errors>(
            Errors::InsufficientBalance,
        ),
{
    if from >= 1 && to < u64::MAX {
        Ok((from - 1, to + 1))
    } else {
        Err(Errors::InsufficientBalance)
    }
}

/// Native value-transfer primitive: moves `amount` base units between two
/// accounts, returning the updated balances `(from, to)`.
pub fn transfer_value(from: u64, to: u64, amount: u64) -> (r: Result<(u64, u64), Errors>)
    ensures
        value_transfer_ok(from, to, amount) ==> r == Ok::<(u64, u64), Errors>(
            ((from - amount) as u64, (to + amount) as u64),
        ),
        !value_transfer_ok(from, to, amount) ==> r == Err::<(u64, u64), Errors>(
            Errors::InsufficientBalance,
        ),
{
    if from >= amount && amount <= u64::MAX - to {
        Ok((from - amount, to + amount))
    } else {
        Err(Errors::InsufficientBalance)
    }
}

} // verus!
