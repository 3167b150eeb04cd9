//! Identities, ledger accounts and the program's error codes.

use vstd::prelude::*;

verus! {

/// The status codes with which an instruction is rejected.
#[derive(Clone, Copy, Debug, PartialEq, Eq, Structural)]
pub enum ProgramError {
    /// The payload is malformed, names no known instruction, or carries a
    /// truncation length beyond the digest.
    InvalidInstructionData,
    /// An account lacks a capability or room that the instruction needs.
    InvalidArgument,
    /// The instruction names fewer accounts than it consumes.
    NotEnoughAccountKeys,
    /// The seed has no program-derived address: it is longer than 32 bytes,
    /// or the search for a discriminator found none.
    InvalidSeeds,
}

/// A 32-byte identity: of an account, of a key pair, or of a program.
#[derive(Clone, Copy, Debug, PartialEq, Eq, Hash)]
pub struct Address {
    pub bytes: [u8; 32],
}

impl View for Address {
    type V = Seq<u8>;

    open spec fn view(&self) -> Seq<u8> {
        self.bytes@
    }
}

/// What a ledger account holds, as contracts speak of it.
pub struct AccountView {
    pub key: Seq<u8>,
    pub owner: Seq<u8>,
    pub lamports: u64,
    pub data: Seq<u8>,
    pub is_signer: bool,
    pub is_writable: bool,
}

/// A ledger account as one invocation sees it. `is_signer` and `is_writable`
/// are capabilities that the invoking transaction grants for this call only;
/// the ledger does not keep them.
#[derive(Clone, Debug, PartialEq, Eq)]
pub struct Account {
    pub key: Address,
    pub owner: Address,
    pub lamports: u64,
    pub data: Vec<u8>,
    pub is_signer: bool,
    pub is_writable: bool,
}

impl View for Account {
    type V = AccountView;

    open spec fn view(&self) -> AccountView {
        AccountView {
            key: self.key@,
            owner: self.owner@,
            lamports: self.lamports,
            data: self.data@,
            is_signer: self.is_signer,
            is_writable: self.is_writable,
        }
    }
}

/// A result with its success value replaced by that value's view.
pub open spec fn result_view<T: View>(r: Result<T, ProgramError>) -> Result<T::V, ProgramError> {
    match r {
        Ok(value) => Ok(value@),
        Err(error) => Err(error),
    }
}

/// The views of a list of accounts, in order.
pub open spec fn account_views(accounts: Seq<Account>) -> Seq<AccountView> {
    Seq::new(accounts.len(), |i: int| accounts[i]@)
}

impl Address {
    /// Whether two identities hold the same bytes.
    pub fn same_as(&self, other: &Address) -> (same: bool)
        ensures
            same == (self@ == other@),
    {
        let mut i: usize = 0;
        while i < 32
            invariant
                i <= 32,
                forall|j: int| 0 <= j < i ==> self.bytes[j] == other.bytes[j],
            decreases 32 - i,
        {
            if self.bytes[i] != other.bytes[i] {
                assert(self@[i as int] != other@[i as int]);
                return false;
            }
            i += 1;
        }
        assert(self@ =~= other@);
        true
    }
}

} // verus!
