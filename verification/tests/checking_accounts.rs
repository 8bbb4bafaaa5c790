use solana_programs::checking_accounts::process_instruction;
use solana_programs::model::{Account, ProgramError};

const PROGRAM: [u8; 32] = [3u8; 32];

fn account(address: [u8; 32], owner: [u8; 32], lamports: u64, is_signer: bool) -> Account {
    Account { address, owner, lamports, is_signer, is_writable: true, data: Vec::new() }
}

fn good_accounts() -> Vec<Account> {
    vec![
        account([1u8; 32], [0u8; 32], 500, true),
        account([2u8; 32], [0u8; 32], 0, false),
        account([4u8; 32], PROGRAM, 10, false),
        account([0u8; 32], [0u8; 32], 1, false),
    ]
}

#[test]
fn checking_accepts_good_accounts() {
    assert_eq!(process_instruction(&PROGRAM, &good_accounts(), &[]), Ok(()));
}

#[test]
fn checking_wants_exactly_four_accounts() {
    let mut accounts = good_accounts();
    accounts.pop();
    assert_eq!(process_instruction(&PROGRAM, &accounts, &[]), Err(ProgramError::NotEnoughAccountKeys));
    let mut accounts = good_accounts();
    accounts.push(account([5u8; 32], [0u8; 32], 1, false));
    assert_eq!(process_instruction(&PROGRAM, &accounts, &[]), Err(ProgramError::NotEnoughAccountKeys));
}

#[test]
fn checking_wants_signing_payer() {
    let mut accounts = good_accounts();
    accounts[0].is_signer = false;
    assert_eq!(process_instruction(&PROGRAM, &accounts, &[]), Err(ProgramError::MissingRequiredSignature));
}

#[test]
fn checking_wants_uncreated_account() {
    let mut accounts = good_accounts();
    accounts[1].lamports = 1;
    assert_eq!(process_instruction(&PROGRAM, &accounts, &[]), Err(ProgramError::AccountAlreadyInitialized));
}

#[test]
fn checking_wants_initialized_account() {
    let mut accounts = good_accounts();
    accounts[2].lamports = 0;
    assert_eq!(process_instruction(&PROGRAM, &accounts, &[]), Err(ProgramError::UninitializedAccount));
}

#[test]
fn checking_wants_owned_account() {
    let mut accounts = good_accounts();
    accounts[2].owner = [8u8; 32];
    assert_eq!(process_instruction(&PROGRAM, &accounts, &[]), Err(ProgramError::IncorrectProgramId));
}

#[test]
fn checking_wants_system_program() {
    let mut accounts = good_accounts();
    accounts[3].address[31] = 1;
    assert_eq!(process_instruction(&PROGRAM, &accounts, &[]), Err(ProgramError::IncorrectProgramId));
}

#[test]
fn checking_system_program_is_pinocchio_system_id() {
    let mut accounts = good_accounts();
    accounts[3].address = pinocchio_system::ID.to_bytes();
    assert_eq!(process_instruction(&PROGRAM, &accounts, &[]), Ok(()));
}
