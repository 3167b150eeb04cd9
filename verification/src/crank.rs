//! The crank: hashes three identities into a seed, derives the program's
//! address for that seed, and reports what it found beside what it was given.

use crate::account::{account_views, result_view, Account, AccountView, Address, ProgramError};
use crate::derive::{found_spec, found_view, on_curve, program_address,
    try_find_program_address, DerivedAddress, DerivedAddressView};
use crate::hash::{crank_seed, crank_seed_spec, identities_spec, sha256};
use vstd::prelude::*;

verus! {

/// What a crank reports: the seed it computed, the seed the instruction
/// carried, the address it derived, the address of the account that the
/// caller claims to be the derived one, and whether the two agree. A claimed
/// account that differs is reported, not rejected.
#[derive(Clone, Debug, PartialEq, Eq)]
pub struct CrankReport {
    pub program_seed: Vec<u8>,
    pub passed_seed: Vec<u8>,
    pub derived: DerivedAddress,
    pub claimed: Address,
    pub target_matches: bool,
}

pub struct CrankReportView {
    pub program_seed: Seq<u8>,
    pub passed_seed: Seq<u8>,
    pub derived: DerivedAddressView,
    pub claimed: Seq<u8>,
    pub target_matches: bool,
}

impl View for CrankReport {
    type V = CrankReportView;

    open spec fn view(&self) -> CrankReportView {
        CrankReportView {
            program_seed: self.program_seed@,
            passed_seed: self.passed_seed@,
            derived: self.derived@,
            claimed: self.claimed@,
            target_matches: self.target_matches,
        }
    }
}

/// The report for a computed seed, the seed that was passed, the outcome of
/// the search and the claimed address: an exhausted search is an error.
pub open spec fn report_spec(
    program_seed: Seq<u8>,
    passed_seed: Seq<u8>,
    found: Option<(Seq<u8>, u8)>,
    claimed: Seq<u8>,
) -> Result<CrankReportView, ProgramError> {
    match found_spec(found) {
        Ok(derived) => Ok(
            CrankReportView {
                program_seed,
                passed_seed,
                derived,
                claimed,
                target_matches: derived.address == claimed,
            },
        ),
        Err(error) => Err(error),
    }
}

/// The digest that a crank computes: of the identities of the fourth to
/// sixth account, in that order.
pub open spec fn crank_digest(accounts: Seq<AccountView>) -> Seq<u8> {
    sha256(identities_spec(accounts[3].key, accounts[4].key, accounts[5].key))
}

/// The crank over an account list whose second entry is the claimed target
/// and whose fourth to sixth entries give the three identities: too short a
/// list is rejected first, then a length beyond the digest.
pub open spec fn crank_spec(
    program_id: Seq<u8>,
    accounts: Seq<AccountView>,
    offset: usize,
    seed: Seq<u8>,
) -> Result<CrankReportView, ProgramError> {
    if accounts.len() < 6 {
        Err(ProgramError::NotEnoughAccountKeys)
    } else {
        match crank_seed_spec(accounts[3].key, accounts[4].key, accounts[5].key, offset) {
            Ok(program_seed) => report_spec(
                program_seed,
                seed,
                program_address(program_seed, program_id),
                accounts[1].key,
            ),
            Err(error) => Err(error),
        }
    }
}

/// Puts a report together from the computed seed, the seed that was passed,
/// the outcome of the search and the claimed address.
pub fn report(
    program_seed: Vec<u8>,
    passed_seed: &[u8],
    found: Option<DerivedAddress>,
    claimed: &Address,
) -> (r: Result<CrankReport, ProgramError>)
    ensures
        result_view(r) == report_spec(program_seed@, passed_seed@, found_view(found), claimed@),
{
    match found {
        Some(derived) => {
            let target_matches = derived.address.same_as(claimed);
            Ok(
                CrankReport {
                    program_seed,
                    passed_seed: vstd::slice::slice_to_vec(passed_seed),
                    derived,
                    claimed: *claimed,
                    target_matches,
                },
            )
        },
        None => Err(ProgramError::InvalidSeeds),
    }
}

/// Computes the seed of the three identities, cut to `offset` bytes, and
/// derives the program's address for it, which is never a point of the
/// curve. The digest has 32 bytes: a list of six accounts with a length
/// above 32 is rejected, and with a length up to 32 the crank succeeds
/// exactly when the derivation finds an address, with a computed seed of
/// that length. No account is changed.
pub fn crank_pda_instruction(
    program_id: &Address,
    accounts: &[Account],
    offset: usize,
    seed: &[u8],
) -> (r: Result<CrankReport, ProgramError>)
    ensures
        result_view(r) == crank_spec(program_id@, account_views(accounts@), offset, seed@),
        r matches Ok(report) ==> !on_curve(report.derived.address@),
        accounts@.len() < 6 ==> r == Err::<CrankReport, ProgramError>(
            ProgramError::NotEnoughAccountKeys,
        ),
        accounts@.len() >= 6 ==> crank_digest(account_views(accounts@)).len() == 32,
        accounts@.len() >= 6 && offset > 32 ==> r == Err::<CrankReport, ProgramError>(
            ProgramError::InvalidInstructionData,
        ),
        accounts@.len() >= 6 && offset <= 32 ==> (r is Ok <==> program_address(
            crank_digest(account_views(accounts@)).take(offset as int),
            program_id@,
        ) is Some),
        r matches Ok(report) ==> report.program_seed@.len() == offset && report.program_seed@
            == crank_digest(account_views(accounts@)).take(offset as int) && report.passed_seed@
            == seed@,
{
    if accounts.len() < 6 {
        return Err(ProgramError::NotEnoughAccountKeys);
    }
    let claimed = &accounts[1];
    let program_seed = match crank_seed(
        &accounts[3].key,
        &accounts[4].key,
        &accounts[5].key,
        offset,
    ) {
        Ok(program_seed) => program_seed,
        Err(error) => { return Err(error); },
    };
    let found = try_find_program_address(program_seed.as_slice(), program_id);
    report(program_seed, seed, found, &claimed.key)
}

} // verus!
