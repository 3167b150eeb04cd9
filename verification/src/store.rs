//! The raw write: copies an instruction's bytes to the front of an account's
//! buffer.

use crate::account::{Account, AccountView, Address, ProgramError};
use vstd::prelude::*;

verus! {

/// The account after `data` has been written to the front of its buffer.
/// An account that the invocation may not write to, or whose buffer is
/// shorter than `data`, is rejected.
pub open spec fn write_spec(account: AccountView, data: Seq<u8>) -> Result<
    AccountView,
    ProgramError,
> {
    if !account.is_writable || account.data.len() < data.len() {
        Err(ProgramError::InvalidArgument)
    } else {
        Ok(AccountView { data: data + account.data.skip(data.len() as int), ..account })
    }
}

/// How the account list after a write relates to the list before it: on
/// success only the first account differs, as `write_spec` says; on an error
/// nothing does.
pub open spec fn written(
    before: Seq<Account>,
    data: Seq<u8>,
    after: Seq<Account>,
    r: Result<(), ProgramError>,
) -> bool {
    match write_spec(before[0]@, data) {
        Ok(account) => {
            &&& r is Ok
            &&& after.len() == before.len()
            &&& after[0]@ == account
            &&& forall|i: int| 1 <= i < before.len() ==> after[i] == before[i]
        },
        Err(error) => r == Err::<(), ProgramError>(error) && after =~= before,
    }
}

/// Writes `data` to the front of the first account's buffer. On an error no
/// account is changed; on success only that buffer is, over the length of
/// `data`.
pub fn process_instruction(_program_id: &Address, accounts: &mut Vec<Account>, data: &[u8]) -> (r:
    Result<(), ProgramError>)
    requires
        old(accounts)@.len() > 0,
    ensures
        written(old(accounts)@, data@, final(accounts)@, r),
{
    if !accounts[0].is_writable {
        return Err(ProgramError::InvalidArgument);
    }
    if accounts[0].data.len() < data.len() {
        return Err(ProgramError::InvalidArgument);
    }
    let ghost before = accounts@[0];
    let account = &mut accounts[0];
    let mut i: usize = 0;
    while i < data.len()
        invariant
            i <= data@.len() <= account.data@.len(),
            account.data@.len() == before.data@.len(),
            account.data@ == data@.take(i as int) + before.data@.skip(i as int),
            account.key == before.key,
            account.owner == before.owner,
            account.lamports == before.lamports,
            account.is_signer == before.is_signer,
            account.is_writable == before.is_writable,
        decreases data@.len() - i,
    {
        account.data[i] = data[i];
        i += 1;
    }
    assert(data@.take(data@.len() as int) == data@);
    Ok(())
}

} // verus!
