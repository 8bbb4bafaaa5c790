use solana_programs::counter::{increment, process_instruction, Counter};
use solana_programs::model::{Account, ProgramError};

fn account(is_writable: bool, data: Vec<u8>) -> Account {
    Account {
        address: [7u8; 32],
        owner: [9u8; 32],
        lamports: 1_000,
        is_signer: false,
        is_writable,
        data,
    }
}

#[test]
fn counter_increments_stored_count() {
    let mut data = 41u64.to_le_bytes().to_vec();
    data.extend_from_slice(&[1, 2, 3]);
    let mut accounts = vec![account(true, data), account(false, vec![5])];
    assert_eq!(process_instruction(&[0u8; 32], &mut accounts, &[]), Ok(()));
    assert_eq!(&accounts[0].data[0..8], &42u64.to_le_bytes());
    assert_eq!(&accounts[0].data[8..], &[1, 2, 3]);
    assert_eq!(accounts[1].data, vec![5]);
    assert_eq!(accounts[0].lamports, 1_000);
}

#[test]
fn counter_increments_twice() {
    let mut accounts = vec![account(true, vec![0u8; 8])];
    process_instruction(&[0u8; 32], &mut accounts, &[]).unwrap();
    process_instruction(&[0u8; 32], &mut accounts, &[]).unwrap();
    assert_eq!(u64::from_le_bytes(accounts[0].data[0..8].try_into().unwrap()), 2);
}

#[test]
fn counter_carries_across_bytes() {
    let mut accounts = vec![account(true, 255u64.to_le_bytes().to_vec())];
    process_instruction(&[0u8; 32], &mut accounts, &[]).unwrap();
    assert_eq!(accounts[0].data, vec![0, 1, 0, 0, 0, 0, 0, 0]);
}

#[test]
fn counter_refuses_no_accounts() {
    let mut accounts: Vec<Account> = Vec::new();
    assert_eq!(
        process_instruction(&[0u8; 32], &mut accounts, &[]),
        Err(ProgramError::NotEnoughAccountKeys)
    );
}

#[test]
fn counter_refuses_read_only_account() {
    let mut accounts = vec![account(false, vec![0u8; 8])];
    assert_eq!(
        process_instruction(&[0u8; 32], &mut accounts, &[]),
        Err(ProgramError::InvalidAccountData)
    );
    assert_eq!(accounts[0].data, vec![0u8; 8]);
}

#[test]
fn counter_refuses_short_data() {
    let mut accounts = vec![account(true, vec![1, 2, 3, 4, 5, 6, 7])];
    assert_eq!(
        process_instruction(&[0u8; 32], &mut accounts, &[]),
        Err(ProgramError::AccountDataTooSmall)
    );
    assert_eq!(accounts[0].data, vec![1, 2, 3, 4, 5, 6, 7]);
}

#[test]
fn anchor_counter_increments() {
    let mut counter = Counter { count: 9 };
    assert_eq!(increment(&mut counter), Ok(()));
    assert_eq!(counter.count, 10);
}
