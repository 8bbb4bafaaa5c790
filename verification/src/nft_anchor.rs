//! The Anchor NFT minter's own decision: after Token-2022 has grown the mint
//! for its metadata, how many lamports the authority must add for the mint to
//! stay rent-exempt.
use vstd::prelude::*;

verus! {

/// The lamports to transfer to the mint when rent requires
/// `required_lamports` and the mint holds `current_lamports`: the shortfall,
/// or `None` when the mint already holds enough.
pub fn rent_top_up(required_lamports: u64, current_lamports: u64) -> (r: Option<u64>)
    ensures
        required_lamports > current_lamports ==> r == Some((required_lamports - current_lamports) as u64),
        required_lamports <= current_lamports ==> r is None,
        r matches Some(d) ==> current_lamports + d == required_lamports,
{
    if required_lamports > current_lamports {
        Some(required_lamports - current_lamports)
    } else {
        None
    }
}

} // verus!
