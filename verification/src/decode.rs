//! The instruction payload: one byte that names the instruction, one byte
//! that gives the seed's length, then the seed.

use crate::account::ProgramError;
use vstd::prelude::*;

verus! {

/// The instructions that the program knows.
#[derive(Clone, Copy, Debug, PartialEq, Eq, Structural)]
pub enum Opcode {
    /// Create the derived account unless it exists.
    CreatePda,
    /// Derive an address from three identities.
    Crank,
}

impl Opcode {
    /// The instruction that a byte names: 0 creates, 1 cranks, and no other
    /// byte names one.
    pub open spec fn of_byte(byte: u8) -> Result<Opcode, ProgramError> {
        if byte == 0 {
            Ok(Opcode::CreatePda)
        } else if byte == 1 {
            Ok(Opcode::Crank)
        } else {
            Err(ProgramError::InvalidInstructionData)
        }
    }

    /// Routes a byte to the instruction it names.
    pub fn from_byte(byte: u8) -> (r: Result<Opcode, ProgramError>)
        ensures
            r == Opcode::of_byte(byte),
    {
        match byte {
            0 => Ok(Opcode::CreatePda),
            1 => Ok(Opcode::Crank),
            _ => Err(ProgramError::InvalidInstructionData),
        }
    }
}

/// A payload is well formed when it has at least three bytes and the seed
/// length in its second byte does not reach past its end.
pub open spec fn well_formed(payload: Seq<u8>) -> bool {
    payload.len() >= 3 && payload[1] <= payload.len() - 2
}

/// The byte that names the instruction and the seed of a well-formed
/// payload; any other payload is rejected.
pub open spec fn decode_spec(payload: Seq<u8>) -> Result<(u8, Seq<u8>), ProgramError> {
    if well_formed(payload) {
        Ok((payload[0], payload.subrange(2, payload[1] + 2)))
    } else {
        Err(ProgramError::InvalidInstructionData)
    }
}

/// The payload that carries `opcode` and `seed` and nothing more.
pub open spec fn payload_spec(opcode: u8, seed: Seq<u8>) -> Seq<u8> {
    seq![opcode, seed.len() as u8] + seed
}

/// The view of what `decode` returns.
pub open spec fn decoded_view(r: Result<(u8, &[u8]), ProgramError>) -> Result<
    (u8, Seq<u8>),
    ProgramError,
> {
    match r {
        Ok((opcode, seed)) => Ok((opcode, seed@)),
        Err(error) => Err(error),
    }
}

/// Splits a payload into the byte that names the instruction and the seed.
/// Nothing else is looked at before a malformed payload is rejected.
pub fn decode(payload: &[u8]) -> (r: Result<(u8, &[u8]), ProgramError>)
    ensures
        decoded_view(r) == decode_spec(payload@),
        payload@.len() < 3 ==> r == Err::<(u8, &[u8]), ProgramError>(
            ProgramError::InvalidInstructionData,
        ),
        payload@.len() >= 3 && payload@[1] > payload@.len() - 2 ==> r == Err::<
            (u8, &[u8]),
            ProgramError,
        >(ProgramError::InvalidInstructionData),
        r matches Ok((opcode, seed)) ==> opcode == payload@[0] && seed@ == payload@.subrange(
            2,
            payload@[1] + 2,
        ),
{
    if payload.len() < 3 {
        return Err(ProgramError::InvalidInstructionData);
    }
    let opcode = payload[0];
    let offset = payload[1] as usize;
    if offset > payload.len() - 2 {
        return Err(ProgramError::InvalidInstructionData);
    }
    let seed = vstd::slice::slice_subrange(payload, 2, offset + 2);
    Ok((opcode, seed))
}

/// Decoding recovers what was put in: a payload made of an instruction byte,
/// the length of a seed of 1 to 255 bytes and the seed decodes to that byte
/// and that seed, and bytes that follow the seed change nothing.
pub proof fn lemma_decode_recovers(opcode: u8, seed: Seq<u8>, rest: Seq<u8>)
    requires
        seed.len() <= 255,
        seed.len() + rest.len() >= 1,
    ensures
        decode_spec(payload_spec(opcode, seed) + rest) == Ok::<(u8, Seq<u8>), ProgramError>(
            (opcode, seed),
        ),
{
    let payload = payload_spec(opcode, seed) + rest;
    assert(payload.subrange(2, seed.len() as int + 2) =~= seed);
}

/// A payload that carries an empty seed and nothing after it has two bytes,
/// and is rejected like every payload of fewer than three.
pub proof fn lemma_short_payload_rejected(payload: Seq<u8>)
    requires
        payload.len() < 3,
    ensures
        decode_spec(payload) == Err::<(u8, Seq<u8>), ProgramError>(
            ProgramError::InvalidInstructionData,
        ),
{
}

} // verus!
