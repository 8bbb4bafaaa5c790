//! The plain-value model of what a Solana program sees and asks for.
use vstd::prelude::*;

verus! {

/// A 32-byte account address or program id.
pub type Address = [u8; 32];

/// The errors that the programs of this crate return.  The variants are those
/// of the Solana runtime's program error.
#[derive(Clone, Copy, Debug, PartialEq, Eq, Structural)]
pub enum ProgramError {
    Custom(u32),
    InvalidArgument,
    InvalidInstructionData,
    InvalidAccountData,
    AccountDataTooSmall,
    InsufficientFunds,
    IncorrectProgramId,
    MissingRequiredSignature,
    AccountAlreadyInitialized,
    UninitializedAccount,
    NotEnoughAccountKeys,
    AccountBorrowFailed,
    MaxSeedLengthExceeded,
    InvalidSeeds,
    BorshIoError,
    AccountNotRentExempt,
    UnsupportedSysvar,
    IllegalOwner,
    MaxAccountsDataAllocationsExceeded,
    InvalidRealloc,
    MaxInstructionTraceLengthExceeded,
    BuiltinProgramsMustConsumeComputeUnits,
    InvalidAccountOwner,
    ArithmeticOverflow,
    Immutable,
    IncorrectAuthority,
}

/// An account as a program sees it during one instruction.
pub struct Account {
    pub address: Address,
    pub owner: Address,
    pub lamports: u64,
    pub is_signer: bool,
    pub is_writable: bool,
    pub data: Vec<u8>,
}

/// `a` and `b` agree on everything but their data.
pub open spec fn same_but_data(a: Account, b: Account) -> bool {
    &&& a.address == b.address
    &&& a.owner == b.owner
    &&& a.lamports == b.lamports
    &&& a.is_signer == b.is_signer
    &&& a.is_writable == b.is_writable
}


/// One account of a cross-program invocation: its address and the access that
/// the invocation asks for.
#[derive(Clone, Copy, Debug)]
pub struct AccountMeta {
    pub address: Address,
    pub is_writable: bool,
    pub is_signer: bool,
}

impl AccountMeta {
    /// A writable, non-signing account.
    pub fn writable(address: Address) -> (m: AccountMeta)
        ensures
            m == (AccountMeta { address, is_writable: true, is_signer: false }),
    {
        AccountMeta { address, is_writable: true, is_signer: false }
    }

    /// A writable account that signs.
    pub fn writable_signer(address: Address) -> (m: AccountMeta)
        ensures
            m == (AccountMeta { address, is_writable: true, is_signer: true }),
    {
        AccountMeta { address, is_writable: true, is_signer: true }
    }

    /// A read-only, non-signing account.
    pub fn readonly(address: Address) -> (m: AccountMeta)
        ensures
            m == (AccountMeta { address, is_writable: false, is_signer: false }),
    {
        AccountMeta { address, is_writable: false, is_signer: false }
    }

    /// A read-only account that signs.
    pub fn readonly_signer(address: Address) -> (m: AccountMeta)
        ensures
            m == (AccountMeta { address, is_writable: false, is_signer: true }),
    {
        AccountMeta { address, is_writable: false, is_signer: true }
    }
}

/// What an [`Invocation`] asks for, as mathematical values.
#[verifier::ext_equal]
pub struct Cpi {
    pub program_id: Address,
    pub accounts: Seq<AccountMeta>,
    pub data: Seq<u8>,
    /// Positions, in the program's own account list, of the accounts handed to
    /// the invoked program.
    pub account_infos: Seq<usize>,
    /// The seeds of the program-derived address that signs, or none.
    pub signer_seeds: Seq<Seq<u8>>,
}

/// A cross-program invocation that a program performs.
pub struct Invocation {
    pub program_id: Address,
    pub accounts: Vec<AccountMeta>,
    pub data: Vec<u8>,
    pub account_infos: Vec<usize>,
    pub signer_seeds: Vec<Vec<u8>>,
}

impl View for Invocation {
    type V = Cpi;

    open spec fn view(&self) -> Cpi {
        Cpi {
            program_id: self.program_id,
            accounts: self.accounts@,
            data: self.data@,
            account_infos: self.account_infos@,
            signer_seeds: self.signer_seeds@.map_values(|s: Vec<u8>| s@),
        }
    }
}

/// How an instruction ends once every invocation of its plan has succeeded.
#[derive(Clone, Copy, Debug, PartialEq, Eq, Structural)]
pub enum Finish {
    /// The instruction succeeds.
    Success,
    /// The instruction fails with this error.
    Failure(ProgramError),
    /// The program panics.
    Abort,
}

/// What a program does with the runtime: perform `invocations` in order, the
/// first that fails ending the instruction with its error; once all have
/// succeeded, end as `finish` says.
pub struct Plan {
    pub invocations: Vec<Invocation>,
    pub finish: Finish,
}

/// A [`Plan`] as mathematical values.
#[verifier::ext_equal]
pub struct PlanView {
    pub invocations: Seq<Cpi>,
    pub finish: Finish,
}

impl View for Plan {
    type V = PlanView;

    open spec fn view(&self) -> PlanView {
        PlanView {
            invocations: self.invocations@.map_values(|i: Invocation| i@),
            finish: self.finish,
        }
    }
}

/// The plan of an instruction that fails with `e` before invoking anything.
pub open spec fn failed(e: ProgramError) -> PlanView {
    PlanView { invocations: Seq::empty(), finish: Finish::Failure(e) }
}

/// The plan of an instruction that succeeds without invoking anything.
pub open spec fn succeeded() -> PlanView {
    PlanView { invocations: Seq::empty(), finish: Finish::Success }
}

/// The plan of an instruction that invokes nothing and ends as `r` says.
pub open spec fn concluded(r: Result<(), ProgramError>) -> PlanView {
    match r {
        Ok(()) => succeeded(),
        Err(e) => failed(e),
    }
}

impl Plan {
    /// Invoke nothing and end as `r` says.
    pub fn conclude(r: Result<(), ProgramError>) -> (p: Plan)
        ensures
            p@ == concluded(r),
    {
        let finish = match r {
            Ok(()) => Finish::Success,
            Err(e) => Finish::Failure(e),
        };
        let p = Plan { invocations: Vec::new(), finish };
        assert(p@.invocations =~= Seq::<Cpi>::empty());
        p
    }

    /// Fail with `e`, invoking nothing.
    pub fn fail(e: ProgramError) -> (p: Plan)
        ensures
            p@ == failed(e),
    {
        let p = Plan { invocations: Vec::new(), finish: Finish::Failure(e) };
        assert(p@.invocations =~= Seq::<Cpi>::empty());
        p
    }
}

/// Whether two addresses are equal.
pub fn same_address(a: &Address, b: &Address) -> (r: bool)
    ensures
        r == (a@ == b@),
{
    let mut i: usize = 0;
    while i < 32
        invariant
            0 <= i <= 32,
            a@.len() == 32,
            b@.len() == 32,
            forall|j: int| 0 <= j < i ==> a@[j] == b@[j],
        decreases 32 - i,
    {
        if a[i] != b[i] {
            return false;
        }
        i = i + 1;
    }
    assert(a@ =~= b@);
    true
}

} // verus!
