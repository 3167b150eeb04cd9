//! The seed of a crank: the SHA-256 digest of three identities, cut to a
//! length that the instruction carries.

use crate::account::{result_view, Address, ProgramError};
use vstd::prelude::*;

verus! {

/// The SHA-256 digest of `data`.
pub uninterp spec fn sha256(data: Seq<u8>) -> Seq<u8>;

/// Calls `sha2::Sha256::digest`. Trusted: the 32 bytes returned are the
/// SHA-256 digest of `data`, which depends on `data` alone.
#[verifier::external_body]
fn sha256_digest(data: &[u8]) -> (digest: [u8; 32])
    ensures
        digest@ == sha256(data@),
{
    <sha2::Sha256 as sha2::Digest>::digest(data).into()
}

/// The first `offset` bytes of a digest; a length beyond the digest is
/// rejected.
pub open spec fn truncate_spec(digest: Seq<u8>, offset: usize) -> Result<Seq<u8>, ProgramError> {
    if offset > digest.len() {
        Err(ProgramError::InvalidInstructionData)
    } else {
        Ok(digest.take(offset as int))
    }
}

/// The three identities one after the other, 96 bytes in all.
pub open spec fn identities_spec(first: Seq<u8>, second: Seq<u8>, third: Seq<u8>) -> Seq<u8> {
    first + second + third
}

/// The seed of a crank over three identities, cut to `offset` bytes.
pub open spec fn crank_seed_spec(
    first: Seq<u8>,
    second: Seq<u8>,
    third: Seq<u8>,
    offset: usize,
) -> Result<Seq<u8>, ProgramError> {
    truncate_spec(sha256(identities_spec(first, second, third)), offset)
}

/// Cuts a digest to its first `offset` bytes.
pub fn truncate_digest(digest: &[u8; 32], offset: usize) -> (r: Result<Vec<u8>, ProgramError>)
    ensures
        result_view(r) == truncate_spec(digest@, offset),
{
    if offset > 32 {
        return Err(ProgramError::InvalidInstructionData);
    }
    let mut out: Vec<u8> = Vec::new();
    let mut i: usize = 0;
    while i < offset
        invariant
            i <= offset <= 32,
            out@ == digest@.take(i as int),
        decreases offset - i,
    {
        out.push(digest[i]);
        i += 1;
    }
    Ok(out)
}

/// Concatenates three identities in order.
pub fn concat_identities(first: &Address, second: &Address, third: &Address) -> (out: Vec<u8>)
    ensures
        out@ == identities_spec(first@, second@, third@),
{
    let mut out: Vec<u8> = Vec::new();
    out.extend_from_slice(first.bytes.as_slice());
    out.extend_from_slice(second.bytes.as_slice());
    out.extend_from_slice(third.bytes.as_slice());
    out
}

/// Hashes three identities and cuts the digest to `offset` bytes. The
/// digest has 32 bytes, so every length up to 32 gives a seed of exactly
/// that length, 32 gives the whole digest, and a greater one is rejected.
pub fn crank_seed(first: &Address, second: &Address, third: &Address, offset: usize) -> (r: Result<
    Vec<u8>,
    ProgramError,
>)
    ensures
        result_view(r) == crank_seed_spec(first@, second@, third@, offset),
        sha256(identities_spec(first@, second@, third@)).len() == 32,
        offset > 32 ==> r == Err::<Vec<u8>, ProgramError>(ProgramError::InvalidInstructionData),
        offset <= 32 ==> r is Ok && r.unwrap()@.len() == offset && r.unwrap()@ == sha256(
            identities_spec(first@, second@, third@),
        ).take(offset as int),
        offset == 32 ==> r.unwrap()@ == sha256(identities_spec(first@, second@, third@)),
{
    let data = concat_identities(first, second, third);
    let digest = sha256_digest(data.as_slice());
    assert(digest@.take(32) =~= digest@);
    truncate_digest(&digest, offset)
}

/// Cutting a 32-byte digest to nothing gives the empty seed, cutting it to
/// 32 bytes gives the whole digest, and every length in between is accepted.
pub proof fn lemma_truncation_boundaries(digest: Seq<u8>)
    requires
        digest.len() == 32,
    ensures
        truncate_spec(digest, 0) == Ok::<Seq<u8>, ProgramError>(Seq::<u8>::empty()),
        truncate_spec(digest, 32) == Ok::<Seq<u8>, ProgramError>(digest),
        forall|offset: usize|
            offset <= 32 ==> (#[trigger] truncate_spec(digest, offset)) is Ok && truncate_spec(
                digest,
                offset,
            ).unwrap().len() == offset,
        forall|offset: usize|
            offset > 32 ==> #[trigger] truncate_spec(digest, offset) == Err::<
                Seq<u8>,
                ProgramError,
            >(ProgramError::InvalidInstructionData),
{
    assert(digest.take(0) =~= Seq::<u8>::empty());
    assert(digest.take(32) =~= digest);
}

} // verus!
