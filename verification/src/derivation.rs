//! Deterministic record addressing.
//!
//! Each owner's escrow record lives at a unique sub-account address derived
//! from a fixed namespace tag, the owner's identity and the program's
//! identity, together with a one-byte derivation proof (the "bump") that
//! certifies the address was computed, not forged. The derivation itself is
//! the host SDK's program-derived-address search; this module calls it and
//! verifies stored proofs against it.

use vstd::prelude::*;

use crate::errors::Errors;
use crate::record::Address;

verus! {

broadcast use vstd::array::group_array_axioms;

/// What the host SDK's bump search returns for the seed pair (tag, owner)
/// under a program identity: the derived address and its bump, or nothing in
/// the statistically improbable event that no bump is viable (or the tag
/// exceeds the host's seed limits).
pub uninterp spec fn pda_of(tag: Seq<u8>, owner: Seq<u8>, program: Seq<u8>) -> Option<
    (Seq<u8>, u8),
>;

/// What the host SDK's single-shot derivation returns for the seed pair
/// (tag, owner) extended with one given bump byte: the derived address, or
/// nothing when the seeds are over the host's limits or the derived point
/// falls on the ed25519 curve.
pub uninterp spec fn pda_with_bump(tag: Seq<u8>, owner: Seq<u8>, bump: u8, program: Seq<u8>) -> Option<
    Seq<u8>,
>;

/// A derived (address, proof) pair as the mathematical value the derivation
/// contract speaks of.
pub open spec fn derived_view(r: Option<(Address, u8)>) -> Option<(Seq<u8>, u8)> {
    match r {
        None => None,
        Some((addr, bump)) => Some((addr.bytes@, bump)),
    }
}

/// Relies on Pubkey::try_find_program_address of the Solana SDK: for fixed
/// seeds and program identity the bump search is a pure computation over
/// SHA-256, so its result depends on the arguments alone; when it yields a
/// pair, re-deriving with the returned bump reproduces the returned address.
#[verifier::external_body]
fn find_record_address(tag: &[u8], owner: &Address, program: &Address) -> (r: Option<
    (Address, u8),
>)
    ensures
        r matches Some(found) ==> pda_of(tag@, owner.bytes@, program.bytes@) == Some(
            (found.0.bytes@, found.1),
        ),
        r is None ==> pda_of(tag@, owner.bytes@, program.bytes@) is None,
        r matches Some(found) ==> pda_with_bump(tag@, owner.bytes@, found.1, program.bytes@)
            == Some(found.0.bytes@),
{
    let program_id = solana_program::pubkey::Pubkey::from(program.bytes);
    match solana_program::pubkey::Pubkey::try_find_program_address(
        &[tag, &owner.bytes],
        &program_id,
    ) {
        Some((address, bump)) => Some((Address { bytes: address.to_bytes() }, bump)),
        None => None,
    }
}

/// Relies on Pubkey::create_program_address of the Solana SDK: a pure
/// SHA-256 derivation of the address for the given seeds, bump and program
/// identity, so its result depends on the arguments alone.
#[verifier::external_body]
fn create_record_address(tag: &[u8], owner: &Address, bump: u8, program: &Address) -> (r: Option<
    Address,
>)
    ensures
        r matches Some(addr) ==> pda_with_bump(tag@, owner.bytes@, bump, program.bytes@) == Some(
            addr.bytes@,
        ),
        r is None ==> pda_with_bump(tag@, owner.bytes@, bump, program.bytes@) is None,
{
    let program_id = solana_program::pubkey::Pubkey::from(program.bytes);
    match solana_program::pubkey::Pubkey::create_program_address(
        &[tag, &owner.bytes, &[bump]],
        &program_id,
    ) {
        Ok(address) => Some(Address { bytes: address.to_bytes() }),
        Err(_) => None,
    }
}

/// Derives the escrow record's unique address for one (namespace tag, owner)
/// pair under the given program, together with its derivation proof. The
/// derivation is a pure function of its inputs: two calls with the same
/// inputs return the same pair.
pub fn derive_address(tag: &[u8], owner: &Address, program: &Address) -> (r: Option<(Address, u8)>)
    ensures
        derived_view(r) == pda_of(tag@, owner.bytes@, program.bytes@),
        r matches Some(found) ==> pda_with_bump(tag@, owner.bytes@, found.1, program.bytes@)
            == Some(found.0.bytes@),
{
    find_record_address(tag, owner, program)
}

/// Verifies a stored derivation proof: re-derives the record address from
/// the namespace tag, the owner and the proof, and checks that it reproduces
/// the presented address. Fails with `AddressMismatch` otherwise — never
/// silently proceeds.
pub fn verify_address(
    address: &Address,
    bump: u8,
    tag: &[u8],
    owner: &Address,
    program: &Address,
) -> (r: Result<(), Errors>)
    ensures
        r is Ok <==> pda_with_bump(tag@, owner.bytes@, bump, program.bytes@) == Some(
            address.bytes@,
        ),
        r is Err ==> r == Err::<(), Errors>(Errors::AddressMismatch),
{
    match create_record_address(tag, owner, bump, program) {
        Some(derived) => {
            if derived.same_as(address) {
                Ok(())
            } else {
                proof {
                    if pda_with_bump(tag@, owner.bytes@, bump, program.bytes@) == Some(
                        address.bytes@,
                    ) {
                        assert(derived.bytes@ == address.bytes@);
                        assert(derived.bytes =~= address.bytes);
                    }
                }
                Err(Errors::AddressMismatch)
            }
        },
        None => Err(Errors::AddressMismatch),
    }
}

} // verus!
