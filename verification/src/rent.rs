//! The rent sysvar and the minimum balance that makes an account rent-exempt.
use vstd::prelude::*;
use crate::model::ProgramError;

verus! {

/// The rent sysvar as the pinocchio programs read it.
#[derive(Clone, Copy, Debug)]
pub struct RentSysvar {
    pub lamports_per_byte: u64,
}

/// The largest account data length that the runtime permits.
pub open spec fn max_permitted_data_length() -> int {
    10 * 1024 * 1024int
}

/// The largest rate for which the minimum balance of any permitted length
/// fits in a `u64`.
pub open spec fn max_lamports_per_byte() -> int {
    1_759_197_129_867int
}

/// The minimum balance of an account of `data_len` bytes under a rate of
/// `lamports_per_byte`: 128 bytes of overhead are charged besides the data.
pub open spec fn rent_exempt_minimum(lamports_per_byte: u64, data_len: int) -> Result<u64, ProgramError> {
    if data_len > max_permitted_data_length() || lamports_per_byte > max_lamports_per_byte() {
        Err(ProgramError::InvalidArgument)
    } else {
        Ok(((128 + data_len) * lamports_per_byte) as u64)
    }
}

/// `pinocchio::sysvars::rent::Rent::try_minimum_balance`, on the rent sysvar
/// that holds `lamports_per_byte`.  In the crate's source it refuses, with
/// `InvalidArgument`, a length over ten MiB or a rate over its bound, and
/// otherwise returns `(128 + data_len) * lamports_per_byte`; the contract
/// claims exactly that.
#[verifier::external_body]
pub(crate) fn pinocchio_minimum_balance(lamports_per_byte: u64, data_len: usize) -> (r: Result<u64, ProgramError>)
    ensures
        r == rent_exempt_minimum(lamports_per_byte, data_len as int),
{
    match pinocchio::sysvars::rent::Rent::from_bytes(&lamports_per_byte.to_le_bytes()) {
        Ok(rent) => match rent.try_minimum_balance(data_len) {
            Ok(lamports) => Ok(lamports),
            Err(_) => Err(ProgramError::InvalidArgument),
        },
        Err(_) => Err(ProgramError::InvalidArgument),
    }
}

} // verus!
