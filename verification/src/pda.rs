//! Program-derived addresses.
use vstd::prelude::*;
use solana_program::pubkey::{Pubkey, PubkeyError};
use crate::model::{Address, ProgramError};

verus! {

/// The program-derived address of `program_id` for the seeds `seed` and
/// `[bump]`: the SHA-256 hash of the seeds, the program id and the marker
/// `ProgramDerivedAddress`, unless that hash lies on the ed25519 curve
/// (`None`).
pub uninterp spec fn program_address(seed: Seq<u8>, bump: u8, program_id: Seq<u8>) -> Option<Seq<u8>>;

/// `solana_program::pubkey::Pubkey::create_program_address` on the seeds
/// `seed` and `[bump]`.  The contract names its result `program_address`; in
/// the crate's source the only error for two seeds of at most 32 bytes each
/// is `InvalidSeeds`, given when the hash lies on the curve, and `?` turns
/// it into the program error of the same name.
#[verifier::external_body]
pub(crate) fn create_program_address(seed: &[u8], bump: u8, program_id: &Address) -> (r: Result<Address, ProgramError>)
    requires
        seed@.len() <= 32,
    ensures
        match r {
            Ok(a) => program_address(seed@, bump, program_id@) == Some(a@),
            Err(e) => program_address(seed@, bump, program_id@) is None && e == ProgramError::InvalidSeeds,
        },
{
    match Pubkey::create_program_address(&[seed, &[bump]], &Pubkey::new_from_array(*program_id)) {
        Ok(address) => Ok(address.to_bytes()),
        Err(PubkeyError::MaxSeedLengthExceeded) => Err(ProgramError::MaxSeedLengthExceeded),
        Err(PubkeyError::InvalidSeeds) => Err(ProgramError::InvalidSeeds),
        Err(PubkeyError::IllegalOwner) => Err(ProgramError::IllegalOwner),
    }
}

} // verus!
