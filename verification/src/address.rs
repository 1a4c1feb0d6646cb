//! Deterministic record addresses.
//!
//! A record is not looked up in an index: its address is computed from the
//! identity it belongs to and from the identity of the program that owns the
//! record, which separates one deployment's records from another's.

use crate::identity::Identity;
use anchor_lang::prelude::Pubkey;
use vstd::prelude::*;

verus! {

/// What the program-address search yields for one 32-byte seed under a program
/// identity: the address with the disambiguating byte that produced it, or
/// nothing when no disambiguator gives an address.
pub uninterp spec fn program_address(seed: Seq<u8>, program_id: Seq<u8>) -> Option<(Seq<u8>, u8)>;

/// An address computed from a seed, with the disambiguating byte ("bump") that
/// the search settled on.
#[derive(Clone, Copy, Debug, PartialEq, Eq)]
pub struct DerivedAddress {
    pub address: Identity,
    pub bump: u8,
}

impl View for DerivedAddress {
    type V = (Seq<u8>, u8);

    open spec fn view(&self) -> (Seq<u8>, u8) {
        (self.address@, self.bump)
    }
}

/// The outcome of a derivation as plain values.
pub open spec fn outcome_view(outcome: Option<DerivedAddress>) -> Option<(Seq<u8>, u8)> {
    match outcome {
        Some(d) => Some(d@),
        None => None,
    }
}

/// The address of the bank record that belongs to `owner`: the owner's
/// identity is the only seed.
pub open spec fn bank_address_of(owner: Identity, program_id: Identity) -> Option<(Seq<u8>, u8)> {
    program_address(owner@, program_id@)
}

/// The address of the ledger entry that belongs to `donor`: the donor's
/// identity is the only seed, whichever bank the donor gives to.
pub open spec fn ledger_address_of(donor: Identity, program_id: Identity) -> Option<
    (Seq<u8>, u8),
> {
    program_address(donor@, program_id@)
}

/// Calls `Pubkey::try_find_program_address` with the single seed `seed`.
///
/// Trusted: the result is a function of the seed bytes and the program
/// identity alone, and it is `None` exactly when the search found no address.
#[verifier::external_body]
fn find_program_address(seed: &Identity, program_id: &Identity) -> (found: Option<DerivedAddress>)
    ensures
        outcome_view(found) == program_address(seed@, program_id@),
{
    match Pubkey::try_find_program_address(
        &[&seed.bytes],
        &Pubkey::new_from_array(program_id.bytes),
    ) {
        Some((address, bump)) => Some(
            DerivedAddress { address: Identity { bytes: address.to_bytes() }, bump },
        ),
        None => None,
    }
}

/// Derives the address of the bank record of `owner`.
pub fn bank_address(owner: &Identity, program_id: &Identity) -> (r: Option<DerivedAddress>)
    ensures
        outcome_view(r) == bank_address_of(*owner, *program_id),
{
    find_program_address(owner, program_id)
}

/// Derives the address of the ledger entry of `donor`.
pub fn ledger_address(donor: &Identity, program_id: &Identity) -> (r: Option<DerivedAddress>)
    ensures
        outcome_view(r) == ledger_address_of(*donor, *program_id),
{
    find_program_address(donor, program_id)
}

} // verus!
