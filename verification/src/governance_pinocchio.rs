//! The pinocchio governance program: a vote that is only checked, and a
//! reclaim of surplus lamports through Token-2022, signed by the treasury.
use vstd::prelude::*;
use crate::governance::{treasury_signer, treasury_signer_seeds, withdraw_excess_lamports_data};
use crate::model::{
    Account, AccountMeta, Address, Cpi, Finish, Invocation, Plan, PlanView, ProgramError, concluded,
    failed, same_address,
};

verus! {

/// Why a vote is refused, in the order of the program's checks.
pub open spec fn cast_vote_failure(program_id: Address, acc: Seq<Account>, data: Seq<u8>) -> Option<ProgramError> {
    if acc.len() != 2 {
        Some(ProgramError::NotEnoughAccountKeys)
    } else if acc[1].owner@ != program_id@ {
        Some(ProgramError::IncorrectProgramId)
    } else if !acc[0].is_signer {
        Some(ProgramError::MissingRequiredSignature)
    } else if data.len() < 17 {
        Some(ProgramError::InvalidInstructionData)
    } else {
        None
    }
}

/// The withdrawal that a reclaim asks of the token program (the fourth
/// account): lamports move from the stranded source (second) to the
/// destination (third), the treasury (first) signing with `bump`.
pub open spec fn withdraw_cpi(acc: Seq<Account>, bump: u8) -> Cpi {
    Cpi {
        program_id: acc[3].address,
        accounts: seq![
            AccountMeta { address: acc[1].address, is_writable: true, is_signer: false },
            AccountMeta { address: acc[2].address, is_writable: true, is_signer: false },
        ],
        data: withdraw_excess_lamports_data(),
        account_infos: seq![1usize, 2usize, 0usize],
        signer_seeds: treasury_signer_seeds(bump),
    }
}

/// What a reclaim does.
pub open spec fn reclaim_plan(acc: Seq<Account>, data: Seq<u8>) -> PlanView {
    if acc.len() != 4 {
        failed(ProgramError::NotEnoughAccountKeys)
    } else if data.len() < 2 {
        failed(ProgramError::InvalidInstructionData)
    } else {
        PlanView { invocations: seq![withdraw_cpi(acc, data[1])], finish: Finish::Success }
    }
}

/// What an instruction does: its first byte picks a vote (0) or a reclaim (1).
pub open spec fn governance_plan(program_id: Address, acc: Seq<Account>, data: Seq<u8>) -> PlanView {
    if data.len() == 0 {
        failed(ProgramError::InvalidInstructionData)
    } else if data[0] == 0 {
        match cast_vote_failure(program_id, acc, data) {
            Some(e) => failed(e),
            None => concluded(Ok(())),
        }
    } else if data[0] == 1 {
        reclaim_plan(acc, data)
    } else {
        failed(ProgramError::InvalidInstructionData)
    }
}

/// Law: a vote is accepted only from a voter who signs, on a proposal that
/// the program owns.
pub proof fn law_vote_guard(program_id: Address, acc: Seq<Account>, data: Seq<u8>)
    requires
        data.len() > 0,
        data[0] == 0,
        governance_plan(program_id, acc, data).finish == Finish::Success,
    ensures
        acc.len() == 2,
        acc[1].owner@ == program_id@,
        acc[0].is_signer,
{
}

/// Law: a reclaim that invokes anything succeeds with exactly one
/// invocation: Token-2022 (the fourth account) is asked for
/// `WithdrawExcessLamports` (`[38]`) from the stranded source (second account,
/// writable) to the destination (third account, writable), signed with the
/// seeds `treasury_vault` and the bump, the instruction's second byte.
pub proof fn law_reclaim_withdrawal(acc: Seq<Account>, data: Seq<u8>)
    requires
        reclaim_plan(acc, data).invocations.len() > 0,
    ensures
        acc.len() == 4,
        data.len() >= 2,
        reclaim_plan(acc, data).finish == Finish::Success,
        reclaim_plan(acc, data).invocations.len() == 1,
        ({
            let w = reclaim_plan(acc, data).invocations[0];
            &&& w.program_id == acc[3].address
            &&& w.data == seq![38u8]
            &&& w.accounts.len() == 2
            &&& w.accounts[0].address == acc[1].address && w.accounts[0].is_writable && !w.accounts[0].is_signer
            &&& w.accounts[1].address == acc[2].address && w.accounts[1].is_writable && !w.accounts[1].is_signer
            &&& w.account_infos == seq![1usize, 2usize, 0usize]
            &&& w.signer_seeds == seq![
                seq![116u8, 114u8, 101u8, 97u8, 115u8, 117u8, 114u8, 121u8, 95u8, 118u8, 97u8, 117u8, 108u8, 116u8],
                seq![data[1]],
            ]
        }),
{
    let w = reclaim_plan(acc, data).invocations[0];
    assert(w.data =~= seq![38u8]);
    assert(w.signer_seeds =~= seq![
        seq![116u8, 114u8, 101u8, 97u8, 115u8, 117u8, 114u8, 121u8, 95u8, 118u8, 97u8, 117u8, 108u8, 116u8],
        seq![data[1]],
    ]);
}

/// Dispatches on the instruction's first byte.
pub fn process_instruction(program_id: &Address, accounts: &[Account], instruction_data: &[u8]) -> (plan: Plan)
    ensures
        plan@ == governance_plan(*program_id, accounts@, instruction_data@),
{
    if instruction_data.len() == 0 {
        return Plan::fail(ProgramError::InvalidInstructionData);
    }
    let variant = instruction_data[0];
    if variant == 0 {
        Plan::conclude(process_cast_vote(program_id, accounts, instruction_data))
    } else if variant == 1 {
        process_reclaim_surplus_sol(program_id, accounts, instruction_data)
    } else {
        Plan::fail(ProgramError::InvalidInstructionData)
    }
}

/// Checks a vote: two accounts, the proposal owned by the program, the voter
/// signing, and a proposal id and a weight in the data.
pub fn process_cast_vote(program_id: &Address, accounts: &[Account], instruction_data: &[u8]) -> (r: Result<(), ProgramError>)
    ensures
        match cast_vote_failure(*program_id, accounts@, instruction_data@) {
            Some(e) => r == Err::<(), ProgramError>(e),
            None => r is Ok,
        },
        r is Ok <==> {
            &&& accounts@.len() == 2
            &&& accounts@[1].owner@ == program_id@
            &&& accounts@[0].is_signer
            &&& instruction_data@.len() >= 17
        },
{
    if accounts.len() != 2 {
        return Err(ProgramError::NotEnoughAccountKeys);
    }
    let voter = &accounts[0];
    let proposal_state = &accounts[1];
    if !same_address(&proposal_state.owner, program_id) {
        return Err(ProgramError::IncorrectProgramId);
    }
    if !voter.is_signer {
        return Err(ProgramError::MissingRequiredSignature);
    }
    if instruction_data.len() < 9 {
        return Err(ProgramError::InvalidInstructionData);
    }
    if instruction_data.len() < 17 {
        return Err(ProgramError::InvalidInstructionData);
    }
    Ok(())
}

/// Reclaims surplus lamports: asks Token-2022 to withdraw them, with the
/// treasury signing.
pub fn process_reclaim_surplus_sol(_program_id: &Address, accounts: &[Account], instruction_data: &[u8]) -> (plan: Plan)
    ensures
        plan@ == reclaim_plan(accounts@, instruction_data@),
        plan@.invocations.len() > 0 ==> {
            &&& plan@.invocations.len() == 1
            &&& plan@.invocations[0].accounts.len() == 2
            &&& plan@.invocations[0].accounts[0].address == accounts@[1].address
            &&& plan@.invocations[0].accounts[0].is_writable
            &&& !plan@.invocations[0].accounts[0].is_signer
            &&& plan@.invocations[0].accounts[1].address == accounts@[2].address
            &&& plan@.invocations[0].accounts[1].is_writable
            &&& !plan@.invocations[0].accounts[1].is_signer
        },
{
    if accounts.len() != 4 {
        return Plan::fail(ProgramError::NotEnoughAccountKeys);
    }
    if instruction_data.len() < 2 {
        return Plan::fail(ProgramError::InvalidInstructionData);
    }
    let bump = instruction_data[1];
    let mut metas = Vec::new();
    metas.push(AccountMeta::writable(accounts[1].address));
    metas.push(AccountMeta::writable(accounts[2].address));
    let mut data = Vec::new();
    data.push(38);
    let mut account_infos = Vec::new();
    account_infos.push(1);
    account_infos.push(2);
    account_infos.push(0);
    let withdraw = Invocation {
        program_id: accounts[3].address,
        accounts: metas,
        data,
        account_infos,
        signer_seeds: treasury_signer(bump),
    };
    assert(withdraw@ =~= withdraw_cpi(accounts@, bump));
    let mut invocations = Vec::new();
    invocations.push(withdraw);
    let plan = Plan { invocations, finish: Finish::Success };
    assert(plan@ =~= reclaim_plan(accounts@, instruction_data@));
    proof {
        law_reclaim_withdrawal(accounts@, instruction_data@);
    }
    plan
}

} // verus!
