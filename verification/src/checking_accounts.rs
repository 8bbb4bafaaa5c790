//! The account-checking program: refuses an instruction unless its four
//! accounts are a signing payer, an account not yet created, an initialised
//! account owned by the program, and the system program.
use vstd::prelude::*;
use crate::model::{Account, Address, ProgramError, same_address};

verus! {

/// The system program's address: 32 zero bytes.
pub open spec fn system_program_id() -> Seq<u8> {
    Seq::new(32, |_i: int| 0u8)
}

/// `pinocchio_system::ID`, the system program's address, as bytes.  The crate
/// declares it as `11111111111111111111111111111111`, the base-58 spelling of
/// 32 zero bytes; the contract claims that value.
#[verifier::external_body]
pub(crate) fn system_program_address() -> (a: Address)
    ensures
        a@ == system_program_id(),
{
    pinocchio_system::ID.to_bytes()
}

/// Why the program refuses `accounts`, in the order of its checks; `None`
/// when it accepts them.
pub open spec fn checking_failure(program_id: Address, acc: Seq<Account>) -> Option<ProgramError> {
    if acc.len() != 4 {
        Some(ProgramError::NotEnoughAccountKeys)
    } else if !acc[0].is_signer {
        Some(ProgramError::MissingRequiredSignature)
    } else if acc[1].lamports != 0 {
        Some(ProgramError::AccountAlreadyInitialized)
    } else if acc[2].lamports == 0 {
        Some(ProgramError::UninitializedAccount)
    } else if acc[2].owner@ != program_id@ {
        Some(ProgramError::IncorrectProgramId)
    } else if acc[3].address@ != system_program_id() {
        Some(ProgramError::IncorrectProgramId)
    } else {
        None
    }
}

/// Law: the program accepts exactly four accounts in which the payer signs,
/// the account to create holds no lamports, the account to change holds
/// lamports and is owned by the program, and the last is the system program;
/// nothing else about the accounts (their data, say) bears on it.
pub proof fn law_accepts_exactly(program_id: Address, acc: Seq<Account>)
    ensures
        checking_failure(program_id, acc) is None <==> {
            &&& acc.len() == 4
            &&& acc[0].is_signer
            &&& acc[1].lamports == 0
            &&& acc[2].lamports != 0
            &&& acc[2].owner@ == program_id@
            &&& acc[3].address@ == Seq::new(32, |_i: int| 0u8)
        },
{
}

/// Checks the payer, the account to create, the account to change and the
/// system program.
pub fn process_instruction(program_id: &Address, accounts: &[Account], _instruction_data: &[u8]) -> (r: Result<(), ProgramError>)
    ensures
        match checking_failure(*program_id, accounts@) {
            Some(e) => r == Err::<(), ProgramError>(e),
            None => r is Ok,
        },
        r is Ok <==> {
            &&& accounts@.len() == 4
            &&& accounts@[0].is_signer
            &&& accounts@[1].lamports == 0
            &&& accounts@[2].lamports != 0
            &&& accounts@[2].owner@ == program_id@
            &&& accounts@[3].address@ == Seq::new(32, |_i: int| 0u8)
        },
{
    proof {
        law_accepts_exactly(*program_id, accounts@);
    }
    if accounts.len() != 4 {
        return Err(ProgramError::NotEnoughAccountKeys);
    }
    let payer = &accounts[0];
    let account_to_create = &accounts[1];
    let account_to_change = &accounts[2];
    let system_program = &accounts[3];
    if !payer.is_signer {
        return Err(ProgramError::MissingRequiredSignature);
    }
    if account_to_create.lamports != 0 {
        return Err(ProgramError::AccountAlreadyInitialized);
    }
    if account_to_change.lamports == 0 {
        return Err(ProgramError::UninitializedAccount);
    }
    if !same_address(&account_to_change.owner, program_id) {
        return Err(ProgramError::IncorrectProgramId);
    }
    let system_id = system_program_address();
    if !same_address(&system_program.address, &system_id) {
        return Err(ProgramError::IncorrectProgramId);
    }
    Ok(())
}

} // verus!
