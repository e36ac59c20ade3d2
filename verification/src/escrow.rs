//! The escrow state machine: initialize, borrow, withdraw, active-rental.
//!
//! Each operation is a total transition on a [`Ledger`] — the slice of host
//! state the escrow governs — plus the host-supplied facts about the request
//! (signer presence, identities, balances, the current time). The host runs
//! every operation as one serializable transaction, so a transition either
//! commits in full or returns an error and changes nothing; the transition
//! functions below realize that contract directly: every error case leaves
//! the ledger exactly as it was.

use vstd::prelude::*;

use crate::errors::Errors;
use crate::record::{Address, RentableToken};
use crate::transfers::{asset_transfer_ok, transfer_asset, transfer_value, value_transfer_ok};

verus! {

/// The host state the escrow governs: the record slot at the deterministic
/// address derived for one (namespace tag, owner) pair, the native balance
/// held by that record account, and the asset units in the escrow's custody
/// account.
#[derive(Clone, Copy, PartialEq, Eq, Debug)]
pub struct Ledger {
    /// The escrow record, or `None` while no listing exists.
    pub record: Option<RentableToken>,
    /// Native value units held by the record account itself.
    pub record_balance: u64,
    /// Asset units held by the program's custody account.
    pub custody_units: u64,
}

impl Ledger {
    /// Well-formedness: a listing exists exactly while custody holds the one
    /// asset unit, the record itself is well-formed, and the asset is locked.
    pub open spec fn wf(self) -> bool {
        &&& self.record matches Some(rec) ==> rec.wf() && rec.locked && self.custody_units == 1
        &&& self.record is None ==> self.custody_units == 0
    }
}

/// Host-supplied facts for one `initialize` request.
#[derive(Clone, Copy, PartialEq, Eq, Debug)]
pub struct Initialize {
    /// The identity to be recorded as the asset owner.
    pub owner: Address,
    /// The owner holds signing authority for this request.
    pub owner_signed: bool,
    /// The custody sub-account that will hold the asset while escrowed.
    pub custody_account: Address,
    /// Asset units currently in the owner's holding account.
    pub owner_units: u64,
    /// Current ledger time, in seconds.
    pub now: i64,
    /// Derivation proof for the record's deterministic address, as produced
    /// by `derive_address` for this owner.
    pub bump: u8,
}

/// Host-supplied facts for one `borrow` request.
#[derive(Clone, Copy, PartialEq, Eq, Debug)]
pub struct Borrow {
    /// The signer identity attached to the request, if any.
    pub signer: Option<Address>,
    /// Native balance of the prospective renter, who pays the price.
    pub renter_balance: u64,
    /// Native balance of the owner, who receives the price.
    pub owner_balance: u64,
}

/// Host-supplied facts for one `withdraw` request.
#[derive(Clone, Copy, PartialEq, Eq, Debug)]
pub struct Withdraw {
    /// The identity attempting the reclamation.
    pub caller: Address,
    /// The caller holds signing authority for this request.
    pub caller_signed: bool,
    /// The custody account presented for the asset's return leg.
    pub presented_custody: Address,
    /// Asset units currently in the owner's holding account.
    pub owner_units: u64,
    /// Native balance of the owner, who receives the sweep.
    pub owner_balance: u64,
    /// Current ledger time, in seconds.
    pub now: i64,
}

/// Host-supplied facts for one `active_rental` query.
#[derive(Clone, Copy, PartialEq, Eq, Debug)]
pub struct ActiveRental {
    /// Current ledger time, in seconds.
    pub now: i64,
}

/// The `initialize` transition: the new ledger and the operation's result.
/// On success the result carries the owner's remaining asset units.
pub open spec fn initialize_step(s: Ledger, ctx: Initialize, price: u64, expiration: i64) -> (
    Ledger,
    Result<u64, Errors>,
) {
    if !ctx.owner_signed {
        (s, Err(Errors::NoSigner))
    } else if expiration <= ctx.now {
        (s, Err(Errors::InvalidExpiration))
    } else if s.record is Some {
        (s, Err(Errors::WrongAddress))
    } else if !asset_transfer_ok(ctx.owner_units, s.custody_units) {
        (s, Err(Errors::InsufficientBalance))
    } else {
        (
            Ledger {
                record: Some(
                    RentableToken {
                        token_owner: ctx.owner,
                        renter: None,
                        associated_token_acc: ctx.custody_account,
                        price,
                        expiration,
                        locked: true,
                        wrapper_outstanding: false,
                        bump: ctx.bump,
                    },
                ),
                record_balance: s.record_balance,
                custody_units: (s.custody_units + 1) as u64,
            },
            Ok((ctx.owner_units - 1) as u64),
        )
    }
}

/// The `borrow` transition: the new ledger and the operation's result. On
/// success the result carries the updated (renter, owner) native balances.
pub open spec fn borrow_step(s: Ledger, ctx: Borrow) -> (Ledger, Result<(u64, u64), Errors>) {
    match s.record {
        None => (s, Err(Errors::WrongAddress)),
        Some(rec) => match ctx.signer {
            None => (s, Err(Errors::NoSigner)),
            Some(caller) => if rec.renter is Some {
                (s, Err(Errors::AlreadyRented))
            } else if !value_transfer_ok(ctx.renter_balance, ctx.owner_balance, rec.price) {
                (s, Err(Errors::InsufficientBalance))
            } else {
                (
                    Ledger {
                        record: Some(
                            RentableToken {
                                renter: Some(caller),
                                wrapper_outstanding: true,
                                ..rec
                            },
                        ),
                        ..s
                    },
                    Ok(
                        (
                            (ctx.renter_balance - rec.price) as u64,
                            (ctx.owner_balance + rec.price) as u64,
                        ),
                    ),
                )
            },
        },
    }
}

/// The `withdraw` transition: the new ledger and the operation's result. On
/// success the record is destroyed, its balance swept, and the result carries
/// the owner's updated (asset units, native balance).
pub open spec fn withdraw_step(s: Ledger, ctx: Withdraw) -> (Ledger, Result<(u64, u64), Errors>) {
    match s.record {
        None => (s, Err(Errors::WrongAddress)),
        Some(rec) => if !ctx.caller_signed {
            (s, Err(Errors::NoSigner))
        } else if ctx.caller != rec.token_owner {
            (s, Err(Errors::NotOwner))
        } else if ctx.presented_custody != rec.associated_token_acc {
            (s, Err(Errors::WrongAddress))
        } else if rec.renter is Some && ctx.now < rec.expiration {
            (s, Err(Errors::NotExpired))
        } else if !asset_transfer_ok(s.custody_units, ctx.owner_units) {
            (s, Err(Errors::InsufficientBalance))
        } else if !value_transfer_ok(s.record_balance, ctx.owner_balance, s.record_balance) {
            (s, Err(Errors::InsufficientBalance))
        } else {
            (
                Ledger {
                    record: None,
                    record_balance: 0,
                    custody_units: (s.custody_units - 1) as u64,
                },
                Ok(((ctx.owner_units + 1) as u64, (ctx.owner_balance + s.record_balance) as u64)),
            )
        },
    }
}

/// A rental is in force: a renter is assigned and the window has not expired.
pub open spec fn rental_active(s: Ledger, now: i64) -> bool {
    match s.record {
        None => false,
        Some(rec) => rec.renter is Some && now < rec.expiration,
    }
}

/// Lists the asset: allocates the escrow record for `ctx.owner` with the
/// given `price` and `expiration` and moves one asset unit from the owner's
/// holding account into program custody. Returns the owner's remaining asset
/// units. The host has already verified the record's deterministic address
/// and derivation proof (see the `derivation` module) before dispatching.
///
/// Record creation and custody transfer are atomic: on any error the ledger
/// is unchanged, so no record exists unless the asset is in custody.
pub fn initialize(ledger: &mut Ledger, ctx: &Initialize, price: u64, expiration: i64) -> (r:
    Result<u64, Errors>)
    requires
        old(ledger).wf(),
    ensures
        final(ledger).wf(),
        (*final(ledger), r) == initialize_step(*old(ledger), *ctx, price, expiration),
        r is Err ==> *final(ledger) == *old(ledger),
        r is Ok ==> (final(ledger).record matches Some(rec) && rec.token_owner == ctx.owner
            && rec.renter is None && rec.price == price && rec.expiration == expiration),
{
    if !ctx.owner_signed {
        return Err(Errors::NoSigner);
    }
    if expiration <= ctx.now {
        return Err(Errors::InvalidExpiration);
    }
    if ledger.record.is_some() {
        return Err(Errors::WrongAddress);
    }
    let (owner_units, custody_units) = match transfer_asset(ctx.owner_units, ledger.custody_units) {
        Ok(units) => units,
        Err(e) => {
            return Err(e);
        },
    };
    ledger.record = Some(
        RentableToken {
            token_owner: ctx.owner,
            renter: None,
            associated_token_acc: ctx.custody_account,
            price,
            expiration,
            locked: true,
            wrapper_outstanding: false,
            bump: ctx.bump,
        },
    );
    ledger.custody_units = custody_units;
    Ok(owner_units)
}

/// Borrows the asset: records the signer as the current renter and moves the
/// listed price from the renter's balance to the owner's. Returns the updated
/// (renter, owner) balances. Renter assignment and payment are atomic: on any
/// error the ledger is unchanged, and a second borrow fails while a renter is
/// assigned.
pub fn borrow(ledger: &mut Ledger, ctx: &Borrow) -> (r: Result<(u64, u64), Errors>)
    requires
        old(ledger).wf(),
    ensures
        final(ledger).wf(),
        (*final(ledger), r) == borrow_step(*old(ledger), *ctx),
        r is Err ==> *final(ledger) == *old(ledger),
        r is Ok ==> (final(ledger).record matches Some(rec) && rec.renter == ctx.signer),
{
    let rec = match &ledger.record {
        Some(rec) => *rec,
        None => {
            return Err(Errors::WrongAddress);
        },
    };
    let caller = match &ctx.signer {
        Some(caller) => *caller,
        None => {
            return Err(Errors::NoSigner);
        },
    };
    if rec.renter.is_some() {
        return Err(Errors::AlreadyRented);
    }
    let balances = match transfer_value(ctx.renter_balance, ctx.owner_balance, rec.price) {
        Ok(balances) => balances,
        Err(e) => {
            return Err(e);
        },
    };
    ledger.record = Some(RentableToken { renter: Some(caller), wrapper_outstanding: true, ..rec });
    Ok(balances)
}

/// Reclaims the asset: after verifying ownership, the registered custody
/// account and the expiry gate, moves the asset unit back to the owner's
/// holding account, sweeps the record account's entire native balance to the
/// owner, and destroys the record. Returns the owner's updated (asset units,
/// native balance). On any error the ledger is unchanged.
pub fn withdraw(ledger: &mut Ledger, ctx: &Withdraw) -> (r: Result<(u64, u64), Errors>)
    requires
        old(ledger).wf(),
    ensures
        final(ledger).wf(),
        (*final(ledger), r) == withdraw_step(*old(ledger), *ctx),
        r is Err ==> *final(ledger) == *old(ledger),
        r is Ok ==> final(ledger).record is None && final(ledger).record_balance == 0,
{
    let rec = match &ledger.record {
        Some(rec) => *rec,
        None => {
            return Err(Errors::WrongAddress);
        },
    };
    if !ctx.caller_signed {
        return Err(Errors::NoSigner);
    }
    if !ctx.caller.same_as(&rec.token_owner) {
        return Err(Errors::NotOwner);
    }
    if !ctx.presented_custody.same_as(&rec.associated_token_acc) {
        return Err(Errors::WrongAddress);
    }
    if rec.renter.is_some() && ctx.now < rec.expiration {
        return Err(Errors::NotExpired);
    }
    let (custody_units, owner_units) = match transfer_asset(ledger.custody_units, ctx.owner_units) {
        Ok(units) => units,
        Err(e) => {
            return Err(e);
        },
    };
    let (record_balance, owner_balance) = match transfer_value(
        ledger.record_balance,
        ctx.owner_balance,
        ledger.record_balance,
    ) {
        Ok(balances) => balances,
        Err(e) => {
            return Err(e);
        },
    };
    ledger.record = None;
    ledger.record_balance = record_balance;
    ledger.custody_units = custody_units;
    Ok((owner_units, owner_balance))
}

/// Read-only query: reports whether a rental is currently in force. Never
/// fails; a missing record or an expired window simply reads as inactive.
pub fn active_rental(ledger: &Ledger, ctx: &ActiveRental) -> (r: bool)
    ensures
        r == rental_active(*ledger, ctx.now),
{
    match &ledger.record {
        None => false,
        Some(rec) => rec.renter.is_some() && ctx.now < rec.expiration,
    }
}

} // verus!
