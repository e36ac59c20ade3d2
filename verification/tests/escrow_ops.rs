//! End-to-end exercises of the escrow lifecycle on concrete ledgers.

use rentable_sol::{
    active_rental, borrow, initialize, withdraw, ActiveRental, Address, Borrow, Errors, Initialize,
    Ledger, Withdraw,
};

fn addr(fill: u8) -> Address {
    Address { bytes: [fill; 32] }
}

fn empty_ledger() -> Ledger {
    Ledger { record: None, record_balance: 0, custody_units: 0 }
}

fn init_ctx(owner: Address, custody: Address, now: i64) -> Initialize {
    Initialize {
        owner,
        owner_signed: true,
        custody_account: custody,
        owner_units: 1,
        now,
        bump: 254,
    }
}

fn listed_ledger(owner: Address, custody: Address, price: u64, expiration: i64) -> Ledger {
    let mut ledger = empty_ledger();
    let r = initialize(&mut ledger, &init_ctx(owner, custody, 0), price, expiration);
    assert_eq!(r, Ok(0));
    ledger
}

#[test]
fn lifecycle_scenario() {
    // Owner O lists the asset at price 100, expiring 3600 seconds from T = 0.
    let owner = addr(1);
    let custody = addr(2);
    let renter = addr(3);
    let mut ledger = empty_ledger();

    let r = initialize(&mut ledger, &init_ctx(owner, custody, 0), 100, 3600);
    assert_eq!(r, Ok(0));
    let rec = ledger.record.expect("record allocated");
    assert_eq!(rec.token_owner, owner);
    assert_eq!(rec.renter, None);
    assert_eq!(rec.price, 100);
    assert_eq!(rec.expiration, 3600);
    assert_eq!(rec.associated_token_acc, custody);
    assert_eq!(rec.bump, 254);
    assert!(rec.locked);
    assert!(!rec.wrapper_outstanding);
    assert_eq!(ledger.custody_units, 1);

    // Renter R borrows at T+10 with 500 units; O holds 1000.
    let r = borrow(
        &mut ledger,
        &Borrow { signer: Some(renter), renter_balance: 500, owner_balance: 1000 },
    );
    assert_eq!(r, Ok((400, 1100)));
    assert_eq!(ledger.record.unwrap().renter, Some(renter));
    assert!(ledger.record.unwrap().wrapper_outstanding);

    // O tries to reclaim at T+100: the window is still open.
    ledger.record_balance = 25;
    let early = Withdraw {
        caller: owner,
        caller_signed: true,
        presented_custody: custody,
        owner_units: 0,
        owner_balance: 1100,
        now: 100,
    };
    assert_eq!(withdraw(&mut ledger, &early), Err(Errors::NotExpired));
    assert!(ledger.record.is_some());

    // O reclaims at T+3601: asset returned, residual balance swept.
    let late = Withdraw { now: 3601, ..early };
    assert_eq!(withdraw(&mut ledger, &late), Ok((1, 1125)));
    assert_eq!(ledger.record, None);
    assert_eq!(ledger.record_balance, 0);
    assert_eq!(ledger.custody_units, 0);
}

#[test]
fn initialize_requires_signer() {
    let mut ledger = empty_ledger();
    let mut ctx = init_ctx(addr(1), addr(2), 0);
    ctx.owner_signed = false;
    assert_eq!(initialize(&mut ledger, &ctx, 100, 3600), Err(Errors::NoSigner));
    assert_eq!(ledger, empty_ledger());
}

#[test]
fn initialize_rejects_past_expiration() {
    let mut ledger = empty_ledger();
    let ctx = init_ctx(addr(1), addr(2), 5000);
    assert_eq!(initialize(&mut ledger, &ctx, 100, 5000), Err(Errors::InvalidExpiration));
    assert_eq!(initialize(&mut ledger, &ctx, 100, 4999), Err(Errors::InvalidExpiration));
    assert_eq!(ledger, empty_ledger());
}

#[test]
fn initialize_rejects_existing_record() {
    let mut ledger = listed_ledger(addr(1), addr(2), 100, 3600);
    let before = ledger;
    let ctx = init_ctx(addr(1), addr(2), 0);
    assert_eq!(initialize(&mut ledger, &ctx, 100, 3600), Err(Errors::WrongAddress));
    assert_eq!(ledger, before);
}

#[test]
fn initialize_without_asset_leaves_no_record() {
    // The custody transfer fails: the owner's holding account is empty.
    let mut ledger = empty_ledger();
    let mut ctx = init_ctx(addr(1), addr(2), 0);
    ctx.owner_units = 0;
    assert_eq!(initialize(&mut ledger, &ctx, 100, 3600), Err(Errors::InsufficientBalance));
    assert_eq!(ledger.record, None);
    assert_eq!(ledger, empty_ledger());
}

#[test]
fn borrow_requires_signer() {
    let mut ledger = listed_ledger(addr(1), addr(2), 100, 3600);
    let before = ledger;
    let r = borrow(&mut ledger, &Borrow { signer: None, renter_balance: 500, owner_balance: 0 });
    assert_eq!(r, Err(Errors::NoSigner));
    assert_eq!(ledger, before);
}

#[test]
fn borrow_without_record_is_rejected() {
    let mut ledger = empty_ledger();
    let r = borrow(
        &mut ledger,
        &Borrow { signer: Some(addr(3)), renter_balance: 500, owner_balance: 0 },
    );
    assert_eq!(r, Err(Errors::WrongAddress));
}

#[test]
fn borrow_pays_the_listed_price() {
    let mut ledger = listed_ledger(addr(1), addr(2), 250, 3600);
    let r = borrow(
        &mut ledger,
        &Borrow { signer: Some(addr(3)), renter_balance: 250, owner_balance: 7 },
    );
    assert_eq!(r, Ok((0, 257)));
}

#[test]
fn borrow_fails_on_short_balance() {
    let mut ledger = listed_ledger(addr(1), addr(2), 250, 3600);
    let before = ledger;
    let r = borrow(
        &mut ledger,
        &Borrow { signer: Some(addr(3)), renter_balance: 249, owner_balance: 7 },
    );
    assert_eq!(r, Err(Errors::InsufficientBalance));
    assert_eq!(ledger, before);
}

#[test]
fn no_double_rental() {
    let mut ledger = listed_ledger(addr(1), addr(2), 100, 3600);
    let first = Borrow { signer: Some(addr(3)), renter_balance: 500, owner_balance: 0 };
    assert!(borrow(&mut ledger, &first).is_ok());
    let rented = ledger;

    // A second borrow fails for any signer — the first renter included.
    let second = Borrow { signer: Some(addr(4)), renter_balance: 900, owner_balance: 100 };
    assert_eq!(borrow(&mut ledger, &second), Err(Errors::AlreadyRented));
    assert_eq!(ledger, rented);
    assert_eq!(borrow(&mut ledger, &first), Err(Errors::AlreadyRented));
    assert_eq!(ledger, rented);

    // After the owner reclaims past expiration, the record is gone and a
    // fresh listing is needed before any borrow can succeed again.
    let r = withdraw(
        &mut ledger,
        &Withdraw {
            caller: addr(1),
            caller_signed: true,
            presented_custody: addr(2),
            owner_units: 0,
            owner_balance: 100,
            now: 3600,
        },
    );
    assert!(r.is_ok());
    assert_eq!(borrow(&mut ledger, &second), Err(Errors::WrongAddress));
}

#[test]
fn withdraw_enforces_ownership() {
    let mut ledger = listed_ledger(addr(1), addr(2), 100, 3600);
    let before = ledger;
    let ctx = Withdraw {
        caller: addr(9),
        caller_signed: true,
        presented_custody: addr(2),
        owner_units: 0,
        owner_balance: 0,
        now: 9999,
    };
    assert_eq!(withdraw(&mut ledger, &ctx), Err(Errors::NotOwner));
    assert_eq!(ledger, before);
}

#[test]
fn withdraw_requires_signer() {
    let mut ledger = listed_ledger(addr(1), addr(2), 100, 3600);
    let ctx = Withdraw {
        caller: addr(1),
        caller_signed: false,
        presented_custody: addr(2),
        owner_units: 0,
        owner_balance: 0,
        now: 9999,
    };
    assert_eq!(withdraw(&mut ledger, &ctx), Err(Errors::NoSigner));
}

#[test]
fn withdraw_checks_custody_account() {
    let mut ledger = listed_ledger(addr(1), addr(2), 100, 3600);
    let ctx = Withdraw {
        caller: addr(1),
        caller_signed: true,
        presented_custody: addr(7),
        owner_units: 0,
        owner_balance: 0,
        now: 9999,
    };
    assert_eq!(withdraw(&mut ledger, &ctx), Err(Errors::WrongAddress));
}

#[test]
fn withdraw_before_expiry_fails_only_with_renter() {
    // With no renter ever assigned, the owner may reclaim at any time.
    let mut ledger = listed_ledger(addr(1), addr(2), 100, 3600);
    let ctx = Withdraw {
        caller: addr(1),
        caller_signed: true,
        presented_custody: addr(2),
        owner_units: 0,
        owner_balance: 0,
        now: 10,
    };
    assert_eq!(withdraw(&mut ledger, &ctx), Ok((1, 0)));
    assert_eq!(ledger.record, None);

    // With a renter, the same early reclamation is gated.
    let mut ledger = listed_ledger(addr(1), addr(2), 100, 3600);
    let r = borrow(
        &mut ledger,
        &Borrow { signer: Some(addr(3)), renter_balance: 100, owner_balance: 0 },
    );
    assert!(r.is_ok());
    let mut ctx = ctx;
    ctx.owner_balance = 100;
    assert_eq!(withdraw(&mut ledger, &ctx), Err(Errors::NotExpired));
    ctx.now = 3600;
    assert_eq!(withdraw(&mut ledger, &ctx), Ok((1, 100)));
}

#[test]
fn withdraw_sweeps_entire_balance() {
    let mut ledger = listed_ledger(addr(1), addr(2), 100, 3600);
    ledger.record_balance = 890_880;
    let ctx = Withdraw {
        caller: addr(1),
        caller_signed: true,
        presented_custody: addr(2),
        owner_units: 4,
        owner_balance: 1_000,
        now: 50,
    };
    assert_eq!(withdraw(&mut ledger, &ctx), Ok((5, 891_880)));
    assert_eq!(ledger.record_balance, 0);
}

#[test]
fn withdraw_sweep_overflow_fails_closed() {
    let mut ledger = listed_ledger(addr(1), addr(2), 100, 3600);
    ledger.record_balance = 2;
    let before = ledger;
    let ctx = Withdraw {
        caller: addr(1),
        caller_signed: true,
        presented_custody: addr(2),
        owner_units: 0,
        owner_balance: u64::MAX - 1,
        now: 50,
    };
    assert_eq!(withdraw(&mut ledger, &ctx), Err(Errors::InsufficientBalance));
    assert_eq!(ledger, before);
}

#[test]
fn active_rental_reports_the_window() {
    let mut ledger = listed_ledger(addr(1), addr(2), 100, 3600);
    // Listed but not yet borrowed: not active.
    assert!(!active_rental(&ledger, &ActiveRental { now: 10 }));

    let r = borrow(
        &mut ledger,
        &Borrow { signer: Some(addr(3)), renter_balance: 100, owner_balance: 0 },
    );
    assert!(r.is_ok());
    assert!(active_rental(&ledger, &ActiveRental { now: 10 }));
    assert!(active_rental(&ledger, &ActiveRental { now: 3599 }));
    assert!(!active_rental(&ledger, &ActiveRental { now: 3600 }));

    // No record at all: not active.
    assert!(!active_rental(&empty_ledger(), &ActiveRental { now: 10 }));
}
