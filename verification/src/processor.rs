//! The entry point: decodes the payload and routes it to the instruction
//! that its first byte names.

use crate::account::{account_views, result_view, Account, AccountView, Address, ProgramError};
use crate::crank::{crank_digest, crank_pda_instruction, crank_spec, CrankReport,
    CrankReportView};
use crate::decode::{decode, decode_spec, Opcode};
use crate::derive::{on_curve, program_address};
use crate::provision::{create_pda_instruction, lemma_create_idempotent, provision_spec, settled,
    Provision, ProvisionView};
use vstd::prelude::*;

verus! {

/// What an accepted instruction leaves for the runtime to carry out.
#[derive(Clone, Debug, PartialEq, Eq)]
pub enum Outcome {
    /// The decision of an instruction that creates.
    Provision(Provision),
    /// The report of a crank.
    Crank(CrankReport),
}

pub enum OutcomeView {
    Provision(ProvisionView),
    Crank(CrankReportView),
}

impl View for Outcome {
    type V = OutcomeView;

    open spec fn view(&self) -> OutcomeView {
        match self {
            Outcome::Provision(provision) => OutcomeView::Provision(provision@),
            Outcome::Crank(report) => OutcomeView::Crank(report@),
        }
    }
}

/// The outcome of the instruction that `opcode` names, for a decoded seed.
/// A crank reads the seed's length as the length to cut the digest to.
pub open spec fn dispatch_spec(
    program_id: Seq<u8>,
    accounts: Seq<AccountView>,
    opcode: u8,
    seed: Seq<u8>,
) -> Result<OutcomeView, ProgramError> {
    match Opcode::of_byte(opcode) {
        Ok(Opcode::CreatePda) => match provision_spec(program_id, accounts, seed) {
            Ok(provision) => Ok(OutcomeView::Provision(provision)),
            Err(error) => Err(error),
        },
        Ok(Opcode::Crank) => match crank_spec(program_id, accounts, seed.len() as usize, seed) {
            Ok(report) => Ok(OutcomeView::Crank(report)),
            Err(error) => Err(error),
        },
        Err(error) => Err(error),
    }
}

/// The outcome of a payload: a malformed one is rejected before anything
/// else is looked at, then a byte that names no instruction.
pub open spec fn process_spec(
    program_id: Seq<u8>,
    accounts: Seq<AccountView>,
    payload: Seq<u8>,
) -> Result<OutcomeView, ProgramError> {
    match decode_spec(payload) {
        Ok((opcode, seed)) => dispatch_spec(program_id, accounts, opcode, seed),
        Err(error) => Err(error),
    }
}

/// Processes one instruction. No account is changed: what has to change is
/// in the outcome, for the runtime to carry out. The digest of a crank has
/// 32 bytes, so a crank over six accounts is rejected for its length exactly
/// when the seed is longer than that. An address that a crank derives, and
/// the one that a creation is authorized for, is never a point of the curve.
pub fn process_instruction(program_id: &Address, accounts: &[Account], instruction_data: &[u8]) -> (r:
    Result<Outcome, ProgramError>)
    ensures
        result_view(r) == process_spec(program_id@, account_views(accounts@), instruction_data@),
        r matches Ok(Outcome::Crank(report)) ==> !on_curve(report.derived.address@),
        decode_spec(instruction_data@) matches Ok((opcode, seed)) && opcode == 1 && accounts@.len()
            >= 6 ==> crank_digest(account_views(accounts@)).len() == 32,
        r matches Ok(Outcome::Crank(report)) ==> report.program_seed@.len()
            == instruction_data@[1] && report.program_seed@ == crank_digest(
            account_views(accounts@),
        ).take(instruction_data@[1] as int),
        r matches Ok(Outcome::Provision(Provision::Create(plan))) ==> program_address(
            plan.authority.seed@,
            program_id@,
        ) matches Some((address, bump)) && plan.authority.bump == bump && !on_curve(address),
{
    let (opcode, seed) = match decode(instruction_data) {
        Ok(decoded) => decoded,
        Err(error) => { return Err(error); },
    };
    match Opcode::from_byte(opcode) {
        Ok(Opcode::CreatePda) => match create_pda_instruction(program_id, accounts, seed) {
            Ok(provision) => Ok(Outcome::Provision(provision)),
            Err(error) => Err(error),
        },
        Ok(Opcode::Crank) => match crank_pda_instruction(program_id, accounts, seed.len(), seed) {
            Ok(report) => Ok(Outcome::Crank(report)),
            Err(error) => Err(error),
        },
        Err(error) => Err(error),
    }
}

/// The account list once the runtime has carried out what an instruction
/// left for it: only a creation changes anything.
pub open spec fn after_instruction(
    program_id: Seq<u8>,
    accounts: Seq<AccountView>,
    payload: Seq<u8>,
    minimum: u64,
) -> Seq<AccountView> {
    match process_spec(program_id, accounts, payload) {
        Ok(OutcomeView::Provision(ProvisionView::Create(plan))) => settled(
            plan,
            accounts,
            minimum,
        ),
        _ => accounts,
    }
}

/// Whether an outcome asks the runtime for a creation.
pub open spec fn asks_creation(outcome: Result<OutcomeView, ProgramError>) -> bool {
    outcome matches Ok(OutcomeView::Provision(ProvisionView::Create(_)))
}

/// An instruction that was accepted and carried out can be sent again: the
/// second time it is accepted as well, asks for no creation, and leaves
/// every account as the first time left it. A creation is carried out with a
/// positive balance that the funding account can pay; with a balance of
/// zero, or one that the runtime refused to take, the target would still
/// look empty afterwards, and the second instruction would ask again.
pub proof fn lemma_instruction_idempotent(
    program_id: Seq<u8>,
    accounts: Seq<AccountView>,
    payload: Seq<u8>,
    minimum: u64,
)
    requires
        process_spec(program_id, accounts, payload) is Ok,
        asks_creation(process_spec(program_id, accounts, payload)) ==> 0 < minimum
            <= accounts[0].lamports,
    ensures
        ({
            let once = after_instruction(program_id, accounts, payload, minimum);
            &&& process_spec(program_id, once, payload) is Ok
            &&& !asks_creation(process_spec(program_id, once, payload))
            &&& after_instruction(program_id, once, payload, minimum) == once
        }),
{
    let (opcode, seed) = decode_spec(payload).unwrap();
    if opcode == 0 {
        lemma_create_idempotent(program_id, accounts, seed, minimum);
    }
}

} // verus!
