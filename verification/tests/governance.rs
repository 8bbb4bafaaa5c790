use borsh::BorshDeserialize;
use solana_program::pubkey::Pubkey;
use solana_programs::governance::GovernanceInstruction;
use solana_programs::model::{Account, Finish, Plan, ProgramError};
use solana_programs::{governance_native, governance_pinocchio};

const PROGRAM: [u8; 32] = [3u8; 32];

fn account(address: [u8; 32], owner: [u8; 32], is_signer: bool) -> Account {
    Account { address, owner, lamports: 1, is_signer, is_writable: true, data: Vec::new() }
}

fn vote_accounts() -> Vec<Account> {
    vec![account([1u8; 32], [0u8; 32], true), account([2u8; 32], PROGRAM, false)]
}

fn vote_data(proposal_id: u64, weight: u64) -> Vec<u8> {
    let mut d = vec![0u8];
    d.extend_from_slice(&proposal_id.to_le_bytes());
    d.extend_from_slice(&weight.to_le_bytes());
    d
}

fn failure(plan: &Plan) -> Option<ProgramError> {
    assert!(plan.invocations.is_empty());
    match plan.finish {
        Finish::Failure(e) => Some(e),
        Finish::Success => None,
        Finish::Abort => panic!("abort"),
    }
}

#[test]
fn unpack_reads_vote_and_reclaim() {
    assert_eq!(
        GovernanceInstruction::unpack(&vote_data(5, 700)),
        Ok(GovernanceInstruction::CastVote { proposal_id: 5, weight: 700 })
    );
    assert_eq!(
        GovernanceInstruction::unpack(&[1, 254, 9, 9]),
        Ok(GovernanceInstruction::ReclaimSurplusSol { bump: 254 })
    );
}

#[test]
fn unpack_refuses_bad_data() {
    assert_eq!(GovernanceInstruction::unpack(&[]), Err(ProgramError::InvalidInstructionData));
    assert_eq!(GovernanceInstruction::unpack(&[2, 0]), Err(ProgramError::InvalidInstructionData));
    assert_eq!(GovernanceInstruction::unpack(&vote_data(1, 2)[..16]), Err(ProgramError::InvalidInstructionData));
    assert_eq!(GovernanceInstruction::unpack(&[1]), Err(ProgramError::InvalidInstructionData));
}

#[test]
fn pack_matches_borsh_layout() {
    let ix = GovernanceInstruction::CastVote { proposal_id: 0x0102030405060708, weight: 99 };
    assert_eq!(ix.pack(), borsh::to_vec(&(0u8, 0x0102030405060708u64, 99u64)).unwrap());
    let ix = GovernanceInstruction::ReclaimSurplusSol { bump: 200 };
    assert_eq!(ix.pack(), borsh::to_vec(&(1u8, 200u8)).unwrap());
}

#[test]
fn pack_then_unpack_round_trips() {
    for ix in [
        GovernanceInstruction::CastVote { proposal_id: u64::MAX, weight: 0 },
        GovernanceInstruction::ReclaimSurplusSol { bump: 0 },
    ] {
        assert_eq!(GovernanceInstruction::unpack(&ix.pack()), Ok(ix));
    }
}

#[test]
fn pinocchio_vote_checks() {
    let data = vote_data(1, 2);
    assert_eq!(failure(&governance_pinocchio::process_instruction(&PROGRAM, &vote_accounts(), &data)), None);
    let mut accounts = vote_accounts();
    accounts[0].is_signer = false;
    assert_eq!(
        failure(&governance_pinocchio::process_instruction(&PROGRAM, &accounts, &data)),
        Some(ProgramError::MissingRequiredSignature)
    );
    let mut accounts = vote_accounts();
    accounts[1].owner = [0u8; 32];
    assert_eq!(
        failure(&governance_pinocchio::process_instruction(&PROGRAM, &accounts, &data)),
        Some(ProgramError::IncorrectProgramId)
    );
    let mut accounts = vote_accounts();
    accounts.push(account([6u8; 32], [0u8; 32], false));
    assert_eq!(
        failure(&governance_pinocchio::process_instruction(&PROGRAM, &accounts, &data)),
        Some(ProgramError::NotEnoughAccountKeys)
    );
    assert_eq!(
        failure(&governance_pinocchio::process_instruction(&PROGRAM, &vote_accounts(), &data[..9])),
        Some(ProgramError::InvalidInstructionData)
    );
    assert_eq!(
        governance_pinocchio::process_cast_vote(&PROGRAM, &vote_accounts(), &data[..12]),
        Err(ProgramError::InvalidInstructionData)
    );
}

#[test]
fn pinocchio_refuses_empty_and_unknown_data() {
    assert_eq!(
        failure(&governance_pinocchio::process_instruction(&PROGRAM, &vote_accounts(), &[])),
        Some(ProgramError::InvalidInstructionData)
    );
    assert_eq!(
        failure(&governance_pinocchio::process_instruction(&PROGRAM, &vote_accounts(), &[7])),
        Some(ProgramError::InvalidInstructionData)
    );
}

fn reclaim_accounts(treasury: [u8; 32]) -> Vec<Account> {
    vec![
        account(treasury, [0u8; 32], false),
        account([11u8; 32], [0u8; 32], false),
        account([12u8; 32], [0u8; 32], false),
        account([13u8; 32], [0u8; 32], false),
    ]
}

#[test]
fn pinocchio_reclaim_asks_for_withdrawal() {
    let plan = governance_pinocchio::process_instruction(&PROGRAM, &reclaim_accounts([10u8; 32]), &[1, 251]);
    assert_eq!(plan.finish, Finish::Success);
    assert_eq!(plan.invocations.len(), 1);
    let w = &plan.invocations[0];
    assert_eq!(w.program_id, [13u8; 32]);
    assert_eq!(w.data, vec![38]);
    assert_eq!(w.accounts.len(), 2);
    assert_eq!(w.accounts[0].address, [11u8; 32]);
    assert!(w.accounts[0].is_writable && !w.accounts[0].is_signer);
    assert_eq!(w.accounts[1].address, [12u8; 32]);
    assert_eq!(w.account_infos, vec![1, 2, 0]);
    assert_eq!(w.signer_seeds, vec![b"treasury_vault".to_vec(), vec![251]]);
}

#[test]
fn pinocchio_reclaim_needs_accounts_and_bump() {
    let mut accounts = reclaim_accounts([10u8; 32]);
    accounts.pop();
    assert_eq!(
        failure(&governance_pinocchio::process_instruction(&PROGRAM, &accounts, &[1, 1])),
        Some(ProgramError::NotEnoughAccountKeys)
    );
    assert_eq!(
        failure(&governance_pinocchio::process_instruction(&PROGRAM, &reclaim_accounts([10u8; 32]), &[1])),
        Some(ProgramError::InvalidInstructionData)
    );
}

#[test]
fn native_vote_checks() {
    let data = vote_data(3, 4);
    assert_eq!(failure(&governance_native::process_instruction(&PROGRAM, &vote_accounts(), &data)), None);
    let mut accounts = vote_accounts();
    accounts.push(account([6u8; 32], [0u8; 32], false));
    assert_eq!(failure(&governance_native::process_instruction(&PROGRAM, &accounts, &data)), None);
    assert_eq!(
        failure(&governance_native::process_instruction(&PROGRAM, &vote_accounts()[..1], &data)),
        Some(ProgramError::NotEnoughAccountKeys)
    );
    let mut accounts = vote_accounts();
    accounts[0].is_signer = false;
    assert_eq!(
        governance_native::process_cast_vote(&PROGRAM, &accounts, 3, 4),
        Err(ProgramError::MissingRequiredSignature)
    );
    let mut accounts = vote_accounts();
    accounts[1].owner = [1u8; 32];
    assert_eq!(
        governance_native::process_cast_vote(&PROGRAM, &accounts, 3, 4),
        Err(ProgramError::IncorrectProgramId)
    );
    assert_eq!(
        failure(&governance_native::process_instruction(&PROGRAM, &vote_accounts(), &data[..10])),
        Some(ProgramError::InvalidInstructionData)
    );
}

#[test]
fn native_reclaim_checks_treasury_address() {
    let program = Pubkey::new_from_array(PROGRAM);
    let (treasury, bump) = Pubkey::find_program_address(&[b"treasury_vault"], &program);
    let plan = governance_native::process_instruction(&PROGRAM, &reclaim_accounts(treasury.to_bytes()), &[1, bump]);
    assert_eq!(plan.finish, Finish::Success);
    assert_eq!(plan.invocations.len(), 1);
    let w = &plan.invocations[0];
    assert_eq!(w.program_id, [13u8; 32]);
    assert_eq!(w.data, vec![38]);
    assert_eq!(w.accounts.len(), 3);
    assert_eq!(w.accounts[2].address, treasury.to_bytes());
    assert!(!w.accounts[2].is_writable && w.accounts[2].is_signer);
    assert_eq!(w.account_infos, vec![1, 2, 0, 3]);
    assert_eq!(w.signer_seeds, vec![b"treasury_vault".to_vec(), vec![bump]]);

    let wrong = governance_native::process_reclaim_surplus_sol(&PROGRAM, &reclaim_accounts([10u8; 32]), bump);
    assert_eq!(failure(&wrong), Some(ProgramError::InvalidSeeds));
    let short = governance_native::process_reclaim_surplus_sol(&PROGRAM, &reclaim_accounts(treasury.to_bytes())[..3], bump);
    assert_eq!(failure(&short), Some(ProgramError::NotEnoughAccountKeys));
}

#[test]
fn native_and_pinocchio_votes_agree() {
    let data = vote_data(8, 9);
    for signer in [true, false] {
        let mut accounts = vote_accounts();
        accounts[0].is_signer = signer;
        let a = governance_native::process_instruction(&PROGRAM, &accounts, &data);
        let b = governance_pinocchio::process_instruction(&PROGRAM, &accounts, &data);
        assert_eq!(failure(&a), failure(&b));
    }
}

#[test]
fn unpacked_instruction_packs_to_data_prefix() {
    let mut data = vote_data(77, 88);
    data.extend_from_slice(&[5, 6, 7]);
    let ix = GovernanceInstruction::unpack(&data).unwrap();
    assert_eq!(ix.pack(), data[..17].to_vec());
    let data = [1u8, 42, 0, 0];
    let ix = GovernanceInstruction::unpack(&data).unwrap();
    assert_eq!(ix.pack(), data[..2].to_vec());
}

#[test]
fn unpack_agrees_with_borsh_deserialize() {
    let mut data = borsh::to_vec(&(0u8, 123u64, 456u64)).unwrap();
    data.push(9);
    let mut rest: &[u8] = &data;
    let (tag, p, w) = <(u8, u64, u64)>::deserialize(&mut rest).unwrap();
    assert_eq!(tag, 0);
    assert_eq!(
        GovernanceInstruction::unpack(&data),
        Ok(GovernanceInstruction::CastVote { proposal_id: p, weight: w })
    );
}
