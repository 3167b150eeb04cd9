//! Account provisioning: decides whether a derived account still has to be
//! created, and states the creation that the runtime is asked for.

use crate::account::{account_views, result_view, Account, AccountView, Address, ProgramError};
use crate::derive::{found_view, on_curve, program_address, try_find_program_address,
    DerivedAddress};
use crate::system::{create_account, create_account_spec, Instruction};
use vstd::prelude::*;

verus! {

/// What lets the program, and nobody else, sign for a derived address: the
/// program's identity, the seed, and the discriminator that the derivation
/// of the two stopped at. The runtime takes the seed and, after it, the one
/// byte of the discriminator as the signer's seeds.
#[derive(Clone, Debug, PartialEq, Eq)]
pub struct AuthorityProof {
    pub program_id: Address,
    pub seed: Vec<u8>,
    pub bump: u8,
}

pub struct AuthorityProofView {
    pub program_id: Seq<u8>,
    pub seed: Seq<u8>,
    pub bump: u8,
}

impl View for AuthorityProof {
    type V = AuthorityProofView;

    open spec fn view(&self) -> AuthorityProofView {
        AuthorityProofView { program_id: self.program_id@, seed: self.seed@, bump: self.bump }
    }
}

/// A creation that is still owed: who pays, which account comes into being,
/// how many bytes it holds, who owns it, and on whose authority.
#[derive(Clone, Debug, PartialEq, Eq)]
pub struct CreatePlan {
    pub funding: Address,
    pub target: Address,
    pub space: u64,
    pub owner: Address,
    pub authority: AuthorityProof,
}

pub struct CreatePlanView {
    pub funding: Seq<u8>,
    pub target: Seq<u8>,
    pub space: u64,
    pub owner: Seq<u8>,
    pub authority: AuthorityProofView,
}

impl View for CreatePlan {
    type V = CreatePlanView;

    open spec fn view(&self) -> CreatePlanView {
        CreatePlanView {
            funding: self.funding@,
            target: self.target@,
            space: self.space,
            owner: self.owner@,
            authority: self.authority@,
        }
    }
}

/// What provisioning decides.
#[derive(Clone, Debug, PartialEq, Eq)]
pub enum Provision {
    /// The target already holds a balance: nothing is to be done.
    AlreadyExists,
    /// The target has to be created as the plan says.
    Create(CreatePlan),
}

pub enum ProvisionView {
    AlreadyExists,
    Create(CreatePlanView),
}

impl View for Provision {
    type V = ProvisionView;

    open spec fn view(&self) -> ProvisionView {
        match self {
            Provision::AlreadyExists => ProvisionView::AlreadyExists,
            Provision::Create(plan) => ProvisionView::Create(plan@),
        }
    }
}

/// The plan for an empty target once the derivation of the program and the
/// seed has come back with `found`: the target is created with its present
/// size, owned by the program, on the authority of the program, the seed and
/// the discriminator found. A derivation that found nothing is an error.
pub open spec fn plan_spec(
    program_id: Seq<u8>,
    funding: Seq<u8>,
    target: AccountView,
    seed: Seq<u8>,
    found: Option<(Seq<u8>, u8)>,
) -> Result<ProvisionView, ProgramError> {
    match found {
        Some((_, bump)) => Ok(
            ProvisionView::Create(
                CreatePlanView {
                    funding,
                    target: target.key,
                    space: target.data.len() as u64,
                    owner: program_id,
                    authority: AuthorityProofView { program_id, seed, bump },
                },
            ),
        ),
        None => Err(ProgramError::InvalidSeeds),
    }
}

/// The decision for an account list that starts with the funding account,
/// the target and the system program: too short a list is rejected, a target
/// with a balance is left alone, and an empty one is planned with the
/// discriminator that the derivation of the program and the seed gives.
pub open spec fn provision_spec(
    program_id: Seq<u8>,
    accounts: Seq<AccountView>,
    seed: Seq<u8>,
) -> Result<ProvisionView, ProgramError> {
    if accounts.len() < 3 {
        Err(ProgramError::NotEnoughAccountKeys)
    } else if accounts[1].lamports > 0 {
        Ok(ProvisionView::AlreadyExists)
    } else {
        plan_spec(
            program_id,
            accounts[0].key,
            accounts[1],
            seed,
            program_address(seed, program_id),
        )
    }
}

/// Plans the creation of `target`, paid for by `funding`, from the outcome
/// of the derivation of the program and the seed.
pub fn plan(
    program_id: &Address,
    funding: &Account,
    target: &Account,
    seed: &[u8],
    found: Option<DerivedAddress>,
) -> (r: Result<Provision, ProgramError>)
    ensures
        result_view(r) == plan_spec(program_id@, funding@.key, target@, seed@, found_view(found)),
{
    match found {
        Some(derived) => Ok(
            Provision::Create(
                CreatePlan {
                    funding: funding.key,
                    target: target.key,
                    space: target.data.len() as u64,
                    owner: *program_id,
                    authority: AuthorityProof {
                        program_id: *program_id,
                        seed: vstd::slice::slice_to_vec(seed),
                        bump: derived.bump,
                    },
                },
            ),
        ),
        None => Err(ProgramError::InvalidSeeds),
    }
}

/// Ensures that the derived account exists: decides between leaving a funded
/// target alone and asking for its creation. A creation carries the proof of
/// authority for the address that the program and the seed derive, which is
/// never a point of the curve; a seed that derives none, as every seed of
/// more than 32 bytes, is rejected.
pub fn create_pda_instruction(program_id: &Address, accounts: &[Account], seed: &[u8]) -> (r:
    Result<Provision, ProgramError>)
    ensures
        result_view(r) == provision_spec(program_id@, account_views(accounts@), seed@),
        r matches Ok(Provision::Create(plan)) ==> program_address(seed@, program_id@) matches Some(
            (address, bump),
        ) && plan.authority.bump == bump && !on_curve(address),
        accounts@.len() >= 3 && accounts@[1].lamports == 0 && seed@.len() > 32 ==> r == Err::<
            Provision,
            ProgramError,
        >(ProgramError::InvalidSeeds),
{
    if accounts.len() < 3 {
        return Err(ProgramError::NotEnoughAccountKeys);
    }
    let funding = &accounts[0];
    let target = &accounts[1];
    if target.lamports > 0 {
        return Ok(Provision::AlreadyExists);
    }
    let found = try_find_program_address(seed, program_id);
    plan(program_id, funding, target, seed, found)
}

impl CreatePlanView {
    /// The target once the runtime has created it with the balance
    /// `lamports`: owned as the plan says, holding that balance and a zeroed
    /// buffer of the planned size.
    pub open spec fn created(self, target: AccountView, lamports: u64) -> AccountView {
        AccountView {
            owner: self.owner,
            lamports,
            data: Seq::new(self.space as nat, |i: int| 0u8),
            ..target
        }
    }
}

/// The funding account, which holds at least `lamports`, once the runtime
/// has taken that much from it.
pub open spec fn debited(funding: AccountView, lamports: u64) -> AccountView {
    AccountView { lamports: (funding.lamports - lamports) as u64, ..funding }
}

impl CreatePlan {
    /// The system instruction that carries out the plan with the balance
    /// `lamports`, which the caller has computed as the minimum that exempts
    /// `space` bytes from reclamation.
    pub fn instruction(&self, lamports: u64) -> (ix: Instruction)
        ensures
            ix@ == create_account_spec(
                self@.funding,
                self@.target,
                lamports,
                self@.space,
                self@.owner,
            ),
    {
        create_account(&self.funding, &self.target, lamports, self.space, &self.owner)
    }

    /// Leaves `funding` and `target` as the runtime leaves the accounts that
    /// the plan names once it has carried the plan out with the balance
    /// `lamports`.
    pub fn settle(&self, lamports: u64, funding: &mut Account, target: &mut Account)
        requires
            old(funding).lamports >= lamports,
            self.space <= usize::MAX,
        ensures
            final(funding)@ == debited(old(funding)@, lamports),
            final(target)@ == self@.created(old(target)@, lamports),
    {
        funding.lamports = funding.lamports - lamports;
        let mut data: Vec<u8> = Vec::new();
        let mut i: u64 = 0;
        while i < self.space
            invariant
                i <= self.space,
                data@ == Seq::new(i as nat, |j: int| 0u8),
            decreases self.space - i,
        {
            data.push(0u8);
            i += 1;
        }
        target.owner = self.owner;
        target.lamports = lamports;
        target.data = data;
    }
}

/// The account list once the runtime has been asked to carry out a plan
/// with the balance `minimum`: the first account has paid and the second
/// has been created. Where the first account holds less than that, the
/// runtime refuses, and the list stays as it is.
pub open spec fn settled(plan: CreatePlanView, accounts: Seq<AccountView>, minimum: u64) -> Seq<
    AccountView,
> {
    if accounts[0].lamports < minimum {
        accounts
    } else {
        accounts.update(0, debited(accounts[0], minimum)).update(
            1,
            plan.created(accounts[1], minimum),
        )
    }
}

/// The account list once the runtime has carried out what a creating
/// instruction decided: a creation is settled, and a target that exists, or
/// an instruction that was rejected, leaves the list as it is.
pub open spec fn after_create(
    program_id: Seq<u8>,
    accounts: Seq<AccountView>,
    seed: Seq<u8>,
    minimum: u64,
) -> Seq<AccountView> {
    match provision_spec(program_id, accounts, seed) {
        Ok(ProvisionView::Create(plan)) => settled(plan, accounts, minimum),
        _ => accounts,
    }
}

/// Creating twice is creating once. After a first creating instruction has
/// been accepted and carried out with a positive balance that the funding
/// account could pay, a second one on the same accounts finds the target
/// funded, asks for nothing, and leaves every account as the first left it.
/// (With a balance of zero, or one that the runtime refused to take, the
/// target would still look empty, and the second instruction would ask
/// again.)
pub proof fn lemma_create_idempotent(
    program_id: Seq<u8>,
    accounts: Seq<AccountView>,
    seed: Seq<u8>,
    minimum: u64,
)
    requires
        provision_spec(program_id, accounts, seed) is Ok,
        accounts[1].lamports > 0 || 0 < minimum <= accounts[0].lamports,
    ensures
        ({
            let once = after_create(program_id, accounts, seed, minimum);
            &&& provision_spec(program_id, once, seed) == Ok::<ProvisionView, ProgramError>(
                ProvisionView::AlreadyExists,
            )
            &&& after_create(program_id, once, seed, minimum) == once
        }),
{
}

/// What a creation leaves behind. For an empty target, a seed that derives
/// an address and a funding account that can pay, the account that the
/// runtime creates keeps its identity and its capabilities, is owned by the
/// program, holds exactly the balance it was created with, and has a zeroed
/// buffer as long as the one it had.
pub proof fn lemma_created_account(
    program_id: Seq<u8>,
    accounts: Seq<AccountView>,
    seed: Seq<u8>,
    minimum: u64,
)
    requires
        accounts.len() >= 3,
        accounts[1].lamports == 0,
        accounts[1].data.len() <= u64::MAX,
        program_address(seed, program_id) is Some,
        accounts[0].lamports >= minimum,
    ensures
        ({
            let target = after_create(program_id, accounts, seed, minimum)[1];
            &&& target.key == accounts[1].key
            &&& target.owner == program_id
            &&& target.lamports == minimum
            &&& target.data.len() == accounts[1].data.len()
            &&& forall|i: int| 0 <= i < target.data.len() ==> target.data[i] == 0
            &&& target.is_signer == accounts[1].is_signer
            &&& target.is_writable == accounts[1].is_writable
        }),
{
}

} // verus!
