//! The solana-program governance program: the same vote and reclaim, with the
//! instruction read as `GovernanceInstruction` and the treasury's address
//! checked against the one derived from its seeds.
use vstd::prelude::*;
use crate::governance::{
    GovernanceInstruction, decode_instruction, treasury_seed, treasury_seed_bytes, treasury_signer,
    treasury_signer_seeds, withdraw_excess_lamports_data,
};
use crate::model::{
    Account, AccountMeta, Address, Cpi, Finish, Invocation, Plan, PlanView, ProgramError, concluded,
    failed, same_address,
};
use crate::pda::{create_program_address, program_address};
use crate::governance_pinocchio;

verus! {

/// Why a vote is refused, in the order of the program's checks: at least two
/// accounts, the proposal (second) owned by the program, the voter (first)
/// signing.
pub open spec fn cast_vote_failure(program_id: Address, acc: Seq<Account>) -> Option<ProgramError> {
    if acc.len() < 2 {
        Some(ProgramError::NotEnoughAccountKeys)
    } else if acc[1].owner@ != program_id@ {
        Some(ProgramError::IncorrectProgramId)
    } else if !acc[0].is_signer {
        Some(ProgramError::MissingRequiredSignature)
    } else {
        None
    }
}

/// The withdrawal that a reclaim asks of the token program (fourth account):
/// from the stranded source (second) to the destination (third), the treasury
/// (first) a read-only signer.
pub open spec fn withdraw_cpi(acc: Seq<Account>, bump: u8) -> Cpi {
    Cpi {
        program_id: acc[3].address,
        accounts: seq![
            AccountMeta { address: acc[1].address, is_writable: true, is_signer: false },
            AccountMeta { address: acc[2].address, is_writable: true, is_signer: false },
            AccountMeta { address: acc[0].address, is_writable: false, is_signer: true },
        ],
        data: withdraw_excess_lamports_data(),
        account_infos: seq![1usize, 2usize, 0usize, 3usize],
        signer_seeds: treasury_signer_seeds(bump),
    }
}

/// What a reclaim with `bump` does: the first account must be the treasury
/// derived from the treasury seed, `bump` and the program id.
pub open spec fn reclaim_plan(program_id: Address, acc: Seq<Account>, bump: u8) -> PlanView {
    if acc.len() < 4 {
        failed(ProgramError::NotEnoughAccountKeys)
    } else {
        match program_address(treasury_seed(), bump, program_id@) {
            None => failed(ProgramError::InvalidSeeds),
            Some(expected) => if acc[0].address@ != expected {
                failed(ProgramError::InvalidSeeds)
            } else {
                PlanView { invocations: seq![withdraw_cpi(acc, bump)], finish: Finish::Success }
            },
        }
    }
}

/// What an instruction does.
pub open spec fn governance_plan(program_id: Address, acc: Seq<Account>, data: Seq<u8>) -> PlanView {
    match decode_instruction(data) {
        None => failed(ProgramError::InvalidInstructionData),
        Some(GovernanceInstruction::CastVote { .. }) => match cast_vote_failure(program_id, acc) {
            Some(e) => failed(e),
            None => concluded(Ok(())),
        },
        Some(GovernanceInstruction::ReclaimSurplusSol { bump }) => reclaim_plan(program_id, acc, bump),
    }
}

/// Law: a vote is accepted only from a voter who signs, on a proposal that
/// the program owns.
pub proof fn law_vote_guard(program_id: Address, acc: Seq<Account>, data: Seq<u8>)
    requires
        decode_instruction(data) matches Some(GovernanceInstruction::CastVote { .. }),
        governance_plan(program_id, acc, data).finish == Finish::Success,
    ensures
        acc.len() >= 2,
        acc[1].owner@ == program_id@,
        acc[0].is_signer,
{
}

/// Law: a reclaim that invokes anything succeeds with exactly one
/// invocation: Token-2022 (the fourth account) is asked for
/// `WithdrawExcessLamports` (`[38]`) from the stranded source (second account,
/// writable) to the destination (third account, writable), with the treasury
/// (first account) as a read-only signer whose seeds are `treasury_vault` and
/// the bump.
pub proof fn law_reclaim_withdrawal(program_id: Address, acc: Seq<Account>, bump: u8)
    requires
        reclaim_plan(program_id, acc, bump).invocations.len() > 0,
    ensures
        acc.len() >= 4,
        reclaim_plan(program_id, acc, bump).finish == Finish::Success,
        reclaim_plan(program_id, acc, bump).invocations.len() == 1,
        ({
            let w = reclaim_plan(program_id, acc, bump).invocations[0];
            &&& w.program_id == acc[3].address
            &&& w.data == seq![38u8]
            &&& w.accounts.len() == 3
            &&& w.accounts[0].address == acc[1].address && w.accounts[0].is_writable && !w.accounts[0].is_signer
            &&& w.accounts[1].address == acc[2].address && w.accounts[1].is_writable && !w.accounts[1].is_signer
            &&& w.accounts[2].address == acc[0].address && !w.accounts[2].is_writable && w.accounts[2].is_signer
            &&& w.account_infos == seq![1usize, 2usize, 0usize, 3usize]
            &&& w.signer_seeds == seq![
                seq![116u8, 114u8, 101u8, 97u8, 115u8, 117u8, 114u8, 121u8, 95u8, 118u8, 97u8, 117u8, 108u8, 116u8],
                seq![bump],
            ]
        }),
{
    let w = reclaim_plan(program_id, acc, bump).invocations[0];
    assert(w.data =~= seq![38u8]);
    assert(w.signer_seeds =~= seq![treasury_seed(), seq![bump]]);
}

/// Law: a withdrawal is asked for only with the treasury, the first account,
/// at the address derived from the treasury seed and the bump.
pub proof fn law_reclaim_guard(program_id: Address, acc: Seq<Account>, bump: u8)
    requires
        reclaim_plan(program_id, acc, bump).invocations.len() > 0,
    ensures
        program_address(treasury_seed(), bump, program_id@) == Some(acc[0].address@),
{
}

/// Law: on a vote with exactly its two accounts, the solana-program and the
/// pinocchio governance programs do the same.
pub proof fn law_votes_agree(program_id: Address, acc: Seq<Account>, data: Seq<u8>)
    requires
        acc.len() == 2,
        decode_instruction(data) matches Some(GovernanceInstruction::CastVote { .. }),
    ensures
        governance_plan(program_id, acc, data) == governance_pinocchio::governance_plan(program_id, acc, data),
{
}

/// Reads the instruction and carries it out.
pub fn process_instruction(program_id: &Address, accounts: &[Account], instruction_data: &[u8]) -> (plan: Plan)
    ensures
        plan@ == governance_plan(*program_id, accounts@, instruction_data@),
{
    match GovernanceInstruction::unpack(instruction_data) {
        Err(e) => Plan::fail(e),
        Ok(GovernanceInstruction::CastVote { proposal_id, weight }) => Plan::conclude(
            process_cast_vote(program_id, accounts, proposal_id, weight),
        ),
        Ok(GovernanceInstruction::ReclaimSurplusSol { bump }) => process_reclaim_surplus_sol(
            program_id,
            accounts,
            bump,
        ),
    }
}

/// Checks a vote.
pub fn process_cast_vote(program_id: &Address, accounts: &[Account], _proposal_id: u64, _weight: u64) -> (r: Result<(), ProgramError>)
    ensures
        match cast_vote_failure(*program_id, accounts@) {
            Some(e) => r == Err::<(), ProgramError>(e),
            None => r is Ok,
        },
        r is Ok <==> {
            &&& accounts@.len() >= 2
            &&& accounts@[1].owner@ == program_id@
            &&& accounts@[0].is_signer
        },
{
    if accounts.len() < 2 {
        return Err(ProgramError::NotEnoughAccountKeys);
    }
    let voter = &accounts[0];
    let proposal_state = &accounts[1];
    if !same_address(&proposal_state.owner, program_id) {
        return Err(ProgramError::IncorrectProgramId);
    }
    if !voter.is_signer {
        return Err(ProgramError::MissingRequiredSignature);
    }
    Ok(())
}

/// Reclaims surplus lamports once the treasury's address is verified.
pub fn process_reclaim_surplus_sol(program_id: &Address, accounts: &[Account], bump: u8) -> (plan: Plan)
    ensures
        plan@ == reclaim_plan(*program_id, accounts@, bump),
        plan@.invocations.len() > 0 ==> {
            &&& plan@.invocations.len() == 1
            &&& plan@.invocations[0].accounts[0].address == accounts@[1].address
            &&& plan@.invocations[0].accounts[0].is_writable
            &&& !plan@.invocations[0].accounts[0].is_signer
            &&& plan@.invocations[0].accounts[1].address == accounts@[2].address
            &&& plan@.invocations[0].accounts[1].is_writable
            &&& !plan@.invocations[0].accounts[1].is_signer
            &&& plan@.invocations[0].accounts[2].address == accounts@[0].address
            &&& program_address(treasury_seed(), bump, program_id@) == Some(accounts@[0].address@)
        },
{
    if accounts.len() < 4 {
        return Plan::fail(ProgramError::NotEnoughAccountKeys);
    }
    let seed = treasury_seed_bytes();
    let expected = match create_program_address(seed.as_slice(), bump, program_id) {
        Err(e) => return Plan::fail(e),
        Ok(a) => a,
    };
    if !same_address(&accounts[0].address, &expected) {
        return Plan::fail(ProgramError::InvalidSeeds);
    }
    let mut metas = Vec::new();
    metas.push(AccountMeta::writable(accounts[1].address));
    metas.push(AccountMeta::writable(accounts[2].address));
    metas.push(AccountMeta::readonly_signer(accounts[0].address));
    let mut data = Vec::new();
    data.push(38);
    let mut account_infos = Vec::new();
    account_infos.push(1);
    account_infos.push(2);
    account_infos.push(0);
    account_infos.push(3);
    let withdraw = Invocation {
        program_id: accounts[3].address,
        accounts: metas,
        data,
        account_infos,
        signer_seeds: treasury_signer(bump),
    };
    assert(withdraw@ =~= withdraw_cpi(accounts@, bump));
    let mut invocations = Vec::new();
    invocations.push(withdraw);
    let plan = Plan { invocations, finish: Finish::Success };
    assert(plan@ =~= reclaim_plan(*program_id, accounts@, bump));
    proof {
        law_reclaim_withdrawal(*program_id, accounts@, bump);
        law_reclaim_guard(*program_id, accounts@, bump);
    }
    plan
}

} // verus!
