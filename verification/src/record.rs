//! The persistent escrow record and the identities it speaks of.

use vstd::prelude::*;

verus! {

broadcast use vstd::array::group_array_axioms;

/// A 32-byte account identity on the host ledger: an owner, a renter, or a
/// custody sub-account.
#[derive(Clone, Copy, PartialEq, Eq, Debug)]
pub struct Address {
    pub bytes: [u8; 32],
}

impl Address {
    /// Byte-for-byte equality of two identities, as the authorization guards
    /// compare them.
    pub fn same_as(&self, other: &Address) -> (r: bool)
        ensures
            r == (*self == *other),
    {
        let mut i: usize = 0;
        while i < 32
            invariant
                0 <= i <= 32,
                forall|k: int| 0 <= k < i ==> self.bytes[k] == other.bytes[k],
            decreases 32 - i,
        {
            if self.bytes[i] != other.bytes[i] {
                return false;
            }
            i += 1;
        }
        proof {
            assert(self.bytes =~= other.bytes);
        }
        true
    }
}

/// One rental listing: the state persisted at the record's deterministic
/// address from creation until reclamation.
#[derive(Clone, Copy, PartialEq, Eq, Debug)]
pub struct RentableToken {
    /// Identity of the asset owner; set once at creation, immutable after.
    pub token_owner: Address,
    /// Identity of the current borrower; `None` until a successful borrow.
    pub renter: Option<Address>,
    /// The custody sub-account holding the asset while escrowed.
    pub associated_token_acc: Address,
    /// Native value units required to borrow; fixed at creation.
    pub price: u64,
    /// Absolute end of the rental window, in seconds; fixed at creation.
    pub expiration: i64,
    /// The owner has ceded direct control of the asset to the escrow.
    pub locked: bool,
    /// A renter currently holds the rental wrapper.
    pub wrapper_outstanding: bool,
    /// Derivation proof for the record's deterministic address.
    pub bump: u8,
}

impl RentableToken {
    /// Well-formedness: an active rental implies the escrow holds custody,
    /// so a renter can only be assigned while the record is locked and the
    /// wrapper is outstanding.
    pub open spec fn wf(self) -> bool {
        self.renter is Some ==> self.locked && self.wrapper_outstanding
    }
}

} // verus!
