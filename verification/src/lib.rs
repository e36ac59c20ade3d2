//! A time-boxed rental escrow for a single non-fungible asset.
//!
//! An owner deposits one asset unit into program-held custody and publishes a
//! price and an expiration timestamp. Any party may borrow the asset by paying
//! the listed price, which records them as the current renter. Once the rental
//! window has expired the owner may reclaim the asset and sweep the residual
//! native balance held by the escrow record.

mod derivation;
mod errors;
mod escrow;
mod laws;
mod layout;
mod record;
mod transfers;

pub use derivation::{derive_address, derived_view, pda_of, pda_with_bump, verify_address};
pub use errors::Errors;
pub use escrow::{
    active_rental, borrow, borrow_step, initialize, initialize_step, rental_active, withdraw,
    withdraw_step, ActiveRental, Borrow, Initialize, Ledger, Withdraw,
};
pub use laws::{
    lemma_balance_sweep, lemma_borrow_fails_while_rented, lemma_derive_deterministic,
    lemma_expiry_gate, lemma_initialize_atomic, lemma_no_double_rental, lemma_ownership_gate,
};
pub use layout::{
    decode_record, encode_record, flag_byte, i64_le, lemma_record_bytes_injective,
    lemma_u64_le_injective, record_bytes, renter_bytes, timestamp_magnitude, u64_le, RECORD_SPACE,
};
pub use record::{Address, RentableToken};
pub use transfers::{asset_transfer_ok, transfer_asset, transfer_value, value_transfer_ok};
