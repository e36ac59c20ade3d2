//! The safety laws of the escrow, proved once and for all over the
//! transition functions that the operations' contracts are stated against.

use vstd::prelude::*;

use crate::derivation::{derived_view, pda_of};
use crate::errors::Errors;
use crate::escrow::{borrow_step, initialize_step, withdraw_step, Borrow, Initialize, Ledger, Withdraw};
use crate::record::Address;

verus! {

broadcast use vstd::array::group_array_axioms;

/// No double-rental: while a renter is assigned, every borrow fails and
/// leaves the ledger untouched, so only an operation that resets the record
/// (withdraw destroys it) can make a later borrow succeed.
pub proof fn lemma_borrow_fails_while_rented(s: Ledger, ctx: Borrow)
    requires
        s.record matches Some(rec) && rec.renter is Some,
    ensures
        borrow_step(s, ctx).1 is Err,
        borrow_step(s, ctx).0 == s,
        ctx.signer is Some ==> borrow_step(s, ctx).1 == Err::<(u64, u64), Errors>(
            Errors::AlreadyRented,
        ),
{
}

/// No double-rental, across two requests: once a borrow succeeds — whoever
/// the assigned renter is — a subsequent borrow against the resulting ledger
/// fails and changes nothing.
pub proof fn lemma_no_double_rental(s: Ledger, first: Borrow, second: Borrow)
    requires
        borrow_step(s, first).1 is Ok,
    ensures
        borrow_step(borrow_step(s, first).0, second).1 is Err,
        borrow_step(borrow_step(s, first).0, second).0 == borrow_step(s, first).0,
        second.signer is Some ==> borrow_step(borrow_step(s, first).0, second).1 == Err::<
            (u64, u64),
            Errors,
        >(Errors::AlreadyRented),
{
}

/// Expiry gate: with an active renter, a withdrawal by the signed owner
/// presenting the registered custody account fails with `NotExpired` exactly
/// while the current time is before expiration, and succeeds once the time
/// has reached it, absent the machine-limit errors of the two transfers.
pub proof fn lemma_expiry_gate(s: Ledger, ctx: Withdraw)
    requires
        s.wf(),
        s.record matches Some(rec) && rec.renter is Some,
        ctx.caller_signed,
        ctx.caller == s.record.unwrap().token_owner,
        ctx.presented_custody == s.record.unwrap().associated_token_acc,
    ensures
        ctx.now < s.record.unwrap().expiration ==> withdraw_step(s, ctx).1 == Err::<
            (u64, u64),
            Errors,
        >(Errors::NotExpired),
        ctx.now >= s.record.unwrap().expiration && ctx.owner_units < u64::MAX
            && ctx.owner_balance + s.record_balance <= u64::MAX ==> withdraw_step(s, ctx).1 is Ok,
{
}

/// Ownership gate: a signed withdrawal by any identity other than the
/// record's owner fails with `NotOwner` and changes nothing.
pub proof fn lemma_ownership_gate(s: Ledger, ctx: Withdraw)
    requires
        s.record is Some,
        ctx.caller_signed,
        ctx.caller != s.record.unwrap().token_owner,
    ensures
        withdraw_step(s, ctx).1 == Err::<(u64, u64), Errors>(Errors::NotOwner),
        withdraw_step(s, ctx).0 == s,
{
}

/// Balance sweep correctness: a successful withdrawal zeroes the record
/// account's tracked balance, destroys the record, and pays the owner
/// exactly the pre-withdrawal record balance on top of the listed holdings —
/// and returns the one asset unit.
pub proof fn lemma_balance_sweep(s: Ledger, ctx: Withdraw)
    requires
        withdraw_step(s, ctx).1 is Ok,
    ensures
        withdraw_step(s, ctx).0.record_balance == 0,
        withdraw_step(s, ctx).0.record is None,
        withdraw_step(s, ctx).1.unwrap().1 == ctx.owner_balance + s.record_balance,
        withdraw_step(s, ctx).1.unwrap().0 == ctx.owner_units + 1,
{
}

/// Address determinism: the derivation contract pins its result to a
/// function of the namespace tag, the owner and the program alone, so any
/// two results it admits for the same inputs are the same pair.
pub proof fn lemma_derive_deterministic(
    tag: Seq<u8>,
    owner: Seq<u8>,
    program: Seq<u8>,
    r1: Option<(Address, u8)>,
    r2: Option<(Address, u8)>,
)
    requires
        derived_view(r1) == pda_of(tag, owner, program),
        derived_view(r2) == pda_of(tag, owner, program),
    ensures
        r1 == r2,
{
    match (r1, r2) {
        (Some((a1, b1)), Some((a2, b2))) => {
            assert(a1.bytes@ == a2.bytes@);
            assert(a1.bytes =~= a2.bytes);
        },
        _ => {},
    }
}

/// Creation atomicity: if any step of `initialize` fails — the custody
/// transfer included — the ledger is unchanged, so no escrow record exists
/// afterwards for the owner unless one already did.
pub proof fn lemma_initialize_atomic(s: Ledger, ctx: Initialize, price: u64, expiration: i64)
    ensures
        initialize_step(s, ctx, price, expiration).1 is Err ==> initialize_step(
            s,
            ctx,
            price,
            expiration,
        ).0 == s,
        s.record is None && initialize_step(s, ctx, price, expiration).1 is Err ==> initialize_step(
            s,
            ctx,
            price,
            expiration,
        ).0.record is None,
{
}

} // verus!
