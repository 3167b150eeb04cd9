//! Instructions addressed to the system program.

use crate::account::Address;
use vstd::prelude::*;

verus! {

/// One account that an instruction names, with the capabilities it asks for.
#[derive(Clone, Copy, Debug, PartialEq, Eq)]
pub struct AccountMeta {
    pub pubkey: Address,
    pub is_signer: bool,
    pub is_writable: bool,
}

pub struct AccountMetaView {
    pub pubkey: Seq<u8>,
    pub is_signer: bool,
    pub is_writable: bool,
}

impl View for AccountMeta {
    type V = AccountMetaView;

    open spec fn view(&self) -> AccountMetaView {
        AccountMetaView {
            pubkey: self.pubkey@,
            is_signer: self.is_signer,
            is_writable: self.is_writable,
        }
    }
}

/// An instruction for another program: the program, the accounts it is to
/// work on, and its payload.
#[derive(Clone, Debug, PartialEq, Eq)]
pub struct Instruction {
    pub program_id: Address,
    pub accounts: Vec<AccountMeta>,
    pub data: Vec<u8>,
}

pub struct InstructionView {
    pub program_id: Seq<u8>,
    pub accounts: Seq<AccountMetaView>,
    pub data: Seq<u8>,
}

impl View for Instruction {
    type V = InstructionView;

    open spec fn view(&self) -> InstructionView {
        InstructionView {
            program_id: self.program_id@,
            accounts: Seq::new(self.accounts@.len(), |i: int| self.accounts@[i]@),
            data: self.data@,
        }
    }
}

/// The identity of the system program: 32 zero bytes.
pub open spec fn system_program_id() -> Seq<u8> {
    Seq::new(32, |i: int| 0u8)
}

/// The eight bytes of `x`, least significant first.
pub open spec fn u64_le_bytes(x: u64) -> Seq<u8> {
    seq![
        (x % 0x100) as u8,
        (x / 0x100 % 0x100) as u8,
        (x / 0x1_0000 % 0x100) as u8,
        (x / 0x100_0000 % 0x100) as u8,
        (x / 0x1_0000_0000 % 0x100) as u8,
        (x / 0x100_0000_0000 % 0x100) as u8,
        (x / 0x1_0000_0000_0000 % 0x100) as u8,
        (x / 0x100_0000_0000_0000 % 0x100) as u8,
    ]
}

/// The system program's instruction that creates the account `to`, paid for
/// by `from`: both sign and are written to, and the payload holds the
/// instruction's index 0 in four bytes, then the balance and the size in
/// eight bytes each, then the owner.
pub open spec fn create_account_spec(
    from: Seq<u8>,
    to: Seq<u8>,
    lamports: u64,
    space: u64,
    owner: Seq<u8>,
) -> InstructionView {
    InstructionView {
        program_id: system_program_id(),
        accounts: seq![
            AccountMetaView { pubkey: from, is_signer: true, is_writable: true },
            AccountMetaView { pubkey: to, is_signer: true, is_writable: true },
        ],
        data: seq![0u8, 0u8, 0u8, 0u8] + u64_le_bytes(lamports) + u64_le_bytes(space) + owner,
    }
}

/// Calls `solana_program::system_instruction::create_account`. Trusted: the
/// instruction is addressed to the system program, names `from` and `to` as
/// writable signers in that order, and carries the fixed-width little-endian
/// encoding of the creation request as `create_account_spec` spells it out.
#[verifier::external_body]
pub(crate) fn create_account(
    from: &Address,
    to: &Address,
    lamports: u64,
    space: u64,
    owner: &Address,
) -> (ix: Instruction)
    ensures
        ix@ == create_account_spec(from@, to@, lamports, space, owner@),
{
    let ix = solana_program::system_instruction::create_account(
        &solana_program::pubkey::Pubkey::from(from.bytes),
        &solana_program::pubkey::Pubkey::from(to.bytes),
        lamports,
        space,
        &solana_program::pubkey::Pubkey::from(owner.bytes),
    );
    let mut accounts = Vec::new();
    for m in ix.accounts.iter() {
        let pubkey = Address { bytes: m.pubkey.to_bytes() };
        accounts.push(AccountMeta { pubkey, is_signer: m.is_signer, is_writable: m.is_writable });
    }
    Instruction { program_id: Address { bytes: ix.program_id.to_bytes() }, accounts, data: ix.data }
}

} // verus!
