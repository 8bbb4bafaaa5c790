//! The counter program: a little-endian `u64` in the first eight bytes of the
//! first account's data, incremented by each instruction.
use vstd::prelude::*;
use vstd::bytes::{
    lemma_auto_spec_u64_to_from_le_bytes, spec_u64_from_le_bytes, spec_u64_to_le_bytes,
    u64_from_le_bytes, u64_to_le_bytes,
};
use crate::model::{Account, Address, ProgramError, same_but_data};

verus! {

/// The count that `data` holds: its first eight bytes, little-endian.
pub open spec fn stored_count(data: Seq<u8>) -> u64 {
    spec_u64_from_le_bytes(data.subrange(0, 8))
}

/// `data` with its count replaced by `count`, the rest kept.
pub open spec fn with_count(data: Seq<u8>, count: u64) -> Seq<u8> {
    spec_u64_to_le_bytes(count) + data.subrange(8, data.len() as int)
}

/// Writing a count and reading it back gives that count, and the bytes after
/// the count are untouched.
pub proof fn lemma_count_read_back(data: Seq<u8>, count: u64)
    requires
        data.len() >= 8,
    ensures
        stored_count(with_count(data, count)) == count,
        with_count(data, count).len() == data.len(),
        with_count(data, count).subrange(8, data.len() as int) == data.subrange(8, data.len() as int),
{
    lemma_auto_spec_u64_to_from_le_bytes();
    let w = with_count(data, count);
    assert(w.subrange(0, 8) =~= spec_u64_to_le_bytes(count));
    assert(w.subrange(8, data.len() as int) =~= data.subrange(8, data.len() as int));
}

/// Why the counter refuses `accounts`, checked in the program's order.
pub open spec fn counter_failure(accounts: Seq<Account>) -> Option<ProgramError> {
    if accounts.len() == 0 {
        Some(ProgramError::NotEnoughAccountKeys)
    } else if !accounts[0].is_writable {
        Some(ProgramError::InvalidAccountData)
    } else if accounts[0].data@.len() < 8 {
        Some(ProgramError::AccountDataTooSmall)
    } else {
        None
    }
}

/// Increments the count held by the first account.
pub fn process_instruction(
    _program_id: &Address,
    accounts: &mut Vec<Account>,
    _instruction_data: &[u8],
) -> (r: Result<(), ProgramError>)
    requires
        counter_failure(old(accounts)@) is None ==> stored_count(old(accounts)@[0].data@) < u64::MAX,
    ensures
        r matches Err(e) ==> counter_failure(old(accounts)@) == Some(e) && final(accounts)@ == old(accounts)@,
        r is Ok ==> {
            &&& counter_failure(old(accounts)@) is None
            &&& final(accounts)@.len() == old(accounts)@.len()
            &&& forall|i: int| 1 <= i < old(accounts)@.len() ==> final(accounts)@[i] == old(accounts)@[i]
            &&& same_but_data(final(accounts)@[0], old(accounts)@[0])
            &&& final(accounts)@[0].data@ == with_count(
                old(accounts)@[0].data@,
                (stored_count(old(accounts)@[0].data@) + 1) as u64,
            )
            &&& stored_count(final(accounts)@[0].data@) == stored_count(old(accounts)@[0].data@) + 1
        },
        r is Ok <==> (old(accounts)@.len() > 0 && old(accounts)@[0].is_writable && old(accounts)@[0].data@.len() >= 8),
        r is Ok ==> {
            &&& final(accounts)@[0].data@.len() == old(accounts)@[0].data@.len()
            &&& spec_u64_from_le_bytes(final(accounts)@[0].data@.subrange(0, 8)) == spec_u64_from_le_bytes(
                old(accounts)@[0].data@.subrange(0, 8),
            ) + 1
            &&& final(accounts)@[0].data@.subrange(8, old(accounts)@[0].data@.len() as int) == old(
                accounts,
            )@[0].data@.subrange(8, old(accounts)@[0].data@.len() as int)
        },
{
    if accounts.len() == 0 {
        return Err(ProgramError::NotEnoughAccountKeys);
    }
    if !accounts[0].is_writable {
        return Err(ProgramError::InvalidAccountData);
    }
    if accounts[0].data.len() < 8 {
        return Err(ProgramError::AccountDataTooSmall);
    }
    let count = u64_from_le_bytes(&accounts[0].data.as_slice()[0..8]);
    let next = count + 1;
    let bytes = u64_to_le_bytes(next);
    let ghost old_data = accounts@[0].data@;
    let mut i: usize = 0;
    while i < 8
        invariant
            0 <= i <= 8,
            bytes@ == spec_u64_to_le_bytes(next),
            bytes@.len() == 8,
            accounts@.len() == old(accounts)@.len(),
            old(accounts)@.len() > 0,
            old_data.len() >= 8,
            forall|j: int| 1 <= j < old(accounts)@.len() ==> accounts@[j] == old(accounts)@[j],
            same_but_data(accounts@[0], old(accounts)@[0]),
            accounts@[0].data@.len() == old_data.len(),
            old_data == old(accounts)@[0].data@,
            forall|j: int| 0 <= j < i ==> accounts@[0].data@[j] == bytes@[j],
            forall|j: int| i <= j < old_data.len() ==> accounts@[0].data@[j] == old_data[j],
        decreases 8 - i,
    {
        accounts[0].data.set(i, bytes[i]);
        i = i + 1;
    }
    assert(accounts@[0].data@ =~= with_count(old_data, next));
    proof {
        lemma_count_read_back(old_data, next);
    }
    Ok(())
}

/// The account of the Anchor counter program.
pub struct Counter {
    pub count: u64,
}

/// Increments the Anchor counter.
pub fn increment(counter: &mut Counter) -> (r: Result<(), ProgramError>)
    requires
        old(counter).count < u64::MAX,
    ensures
        r is Ok,
        final(counter).count == old(counter).count + 1,
{
    counter.count = counter.count + 1;
    Ok(())
}

} // verus!
