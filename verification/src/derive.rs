//! Program-derived addresses: identities that no key pair can have, found
//! from a program's identity and a seed by a search over a discriminator.

use crate::account::{result_view, Address, ProgramError};
use vstd::prelude::*;

verus! {

/// The address that the canonical search derives for `program_id` from the
/// single seed `seed`, with the discriminator that the search stopped at; or
/// nothing where the search finds none.
pub uninterp spec fn program_address(seed: Seq<u8>, program_id: Seq<u8>) -> Option<(Seq<u8>, u8)>;

/// Whether the 32 bytes are a point of the ed25519 curve, and so may be the
/// identity of a key pair.
pub uninterp spec fn on_curve(address: Seq<u8>) -> bool;

/// A program-derived address and the discriminator that produced it.
#[derive(Clone, Copy, Debug, PartialEq, Eq)]
pub struct DerivedAddress {
    pub address: Address,
    pub bump: u8,
}

pub struct DerivedAddressView {
    pub address: Seq<u8>,
    pub bump: u8,
}

impl View for DerivedAddress {
    type V = DerivedAddressView;

    open spec fn view(&self) -> DerivedAddressView {
        DerivedAddressView { address: self.address@, bump: self.bump }
    }
}

/// What a search that came back with `found` amounts to: the pair it found,
/// or the error of an exhausted search.
pub open spec fn found_spec(found: Option<(Seq<u8>, u8)>) -> Result<
    DerivedAddressView,
    ProgramError,
> {
    match found {
        Some((address, bump)) => Ok(DerivedAddressView { address, bump }),
        None => Err(ProgramError::InvalidSeeds),
    }
}

/// The derivation for a program and a seed.
pub open spec fn derive_spec(seed: Seq<u8>, program_id: Seq<u8>) -> Result<
    DerivedAddressView,
    ProgramError,
> {
    found_spec(program_address(seed, program_id))
}

/// The view of a search's outcome.
pub open spec fn found_view(found: Option<DerivedAddress>) -> Option<(Seq<u8>, u8)> {
    match found {
        Some(derived) => Some((derived.address@, derived.bump)),
        None => None,
    }
}

/// Calls `solana_program::pubkey::Pubkey::try_find_program_address` with the
/// one seed. Trusted: the outcome depends on the seed and the program alone,
/// an address that comes back is not a point of the curve, and a seed of
/// more than 32 bytes finds nothing.
#[verifier::external_body]
pub(crate) fn try_find_program_address(seed: &[u8], program_id: &Address) -> (found: Option<
    DerivedAddress,
>)
    ensures
        found_view(found) == program_address(seed@, program_id@),
        found matches Some(derived) ==> !on_curve(derived.address@),
        seed@.len() > 32 ==> found is None,
{
    let program = solana_program::pubkey::Pubkey::from(program_id.bytes);
    match solana_program::pubkey::Pubkey::try_find_program_address(&[seed], &program) {
        Some((address, bump)) => Some(
            DerivedAddress { address: Address { bytes: address.to_bytes() }, bump },
        ),
        None => None,
    }
}

/// Calls `solana_program::pubkey::Pubkey::is_on_curve`. Trusted: the answer
/// depends on the 32 bytes alone.
#[verifier::external_body]
fn bytes_on_curve(address: &Address) -> (on: bool)
    ensures
        on == on_curve(address@),
{
    solana_program::pubkey::Pubkey::from(address.bytes).is_on_curve()
}

impl Address {
    /// Whether the identity could belong to a key pair. For use off the
    /// ledger only: a program that runs on the ledger has no curve arithmetic
    /// at hand, and the call aborts there.
    pub fn is_on_curve(&self) -> (on: bool)
        ensures
            on == on_curve(self@),
    {
        bytes_on_curve(self)
    }
}

/// Derives the address of `program_id` for `seed`. The address found is
/// never a point of the curve, so no key pair can sign for it. A seed of
/// more than 32 bytes has no address.
pub fn find_program_address(seed: &[u8], program_id: &Address) -> (r: Result<
    DerivedAddress,
    ProgramError,
>)
    ensures
        result_view(r) == derive_spec(seed@, program_id@),
        r matches Ok(derived) ==> !on_curve(derived.address@),
        seed@.len() > 32 ==> r == Err::<DerivedAddress, ProgramError>(ProgramError::InvalidSeeds),
{
    match try_find_program_address(seed, program_id) {
        Some(derived) => Ok(derived),
        None => Err(ProgramError::InvalidSeeds),
    }
}

/// Deriving twice from the same program and seed gives the same address and
/// the same discriminator, or fails both times: any two outcomes that
/// `find_program_address` can hand out for one program and one seed are equal.
pub proof fn lemma_derivation_deterministic(
    seed: Seq<u8>,
    program_id: Seq<u8>,
    first: Result<DerivedAddress, ProgramError>,
    second: Result<DerivedAddress, ProgramError>,
)
    requires
        result_view(first) == derive_spec(seed, program_id),
        result_view(second) == derive_spec(seed, program_id),
    ensures
        first == second,
{
    match (first, second) {
        (Ok(a), Ok(b)) => {
            assert(a.address.bytes =~= b.address.bytes);
        },
        _ => {},
    }
}

} // verus!
