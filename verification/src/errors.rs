//! Typed failures of the escrow operations.
//!
//! Every precondition violation aborts the whole operation with one of these
//! kinds and no partial state change; no failure is silently swallowed.

use vstd::prelude::*;

verus! {

/// The failure kinds reported by the escrow operations.
#[derive(Clone, Copy, PartialEq, Eq, Structural, Debug)]
pub enum Errors {
    /// No signer identity was attached to the request.
    NoSigner,
    /// The caller is not the record's owner.
    NotOwner,
    /// Reclamation was attempted before expiration with an active renter.
    NotExpired,
    /// A transfer would underflow the paying account or overflow the
    /// receiving account.
    InsufficientBalance,
    /// A presented account does not match the record's stored reference, no
    /// record exists at the presented address, or one already does where a
    /// fresh record was to be allocated.
    WrongAddress,
    /// A derivation proof does not reproduce the expected record address.
    AddressMismatch,
    /// A second borrow was attempted while a renter is already assigned.
    AlreadyRented,
    /// A listing was created with an expiration not in the future.
    InvalidExpiration,
}

} // verus!
