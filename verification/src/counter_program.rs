//! A counter kept in the first eight bytes of an account's data,
//! little-endian, that each instruction raises by one.
use vstd::prelude::*;
use vstd::bytes::{spec_u64_from_le_bytes, spec_u64_to_le_bytes, u64_from_le_bytes, u64_to_le_bytes};
use vstd::slice::slice_subrange;
use crate::account::AccountInfo;
use crate::error::ProgramError;
use crate::pubkey::{lemma_pubkey_view_injective, Pubkey};

verus! {

broadcast use lemma_pubkey_view_injective;

/// The number of bytes of the stored count.
pub const COUNT_LEN: usize = 8;

/// The count stored at the front of `data`.
pub open spec fn stored_count(data: Seq<u8>) -> u64 {
    spec_u64_from_le_bytes(data.take(8))
}

/// `data` with its front replaced by the bytes of `count`.
pub open spec fn with_count(data: Seq<u8>, count: u64) -> Seq<u8> {
    spec_u64_to_le_bytes(count) + data.skip(8)
}

/// Hands out the index of the next account after `cursor`, and moves
/// `cursor` past it.
pub fn next_account(accounts: &[AccountInfo], cursor: &mut usize) -> (r: Result<usize, ProgramError>)
    ensures
        *old(cursor) < accounts@.len() ==> r == Ok::<usize, ProgramError>(*old(cursor))
            && *final(cursor) == *old(cursor) + 1,
        *old(cursor) >= accounts@.len() ==> r == Err::<usize, ProgramError>(
            ProgramError::NotEnoughAccountKeys,
        ) && *final(cursor) == *old(cursor),
{
    if *cursor < accounts.len() {
        let index = *cursor;
        *cursor = index + 1;
        Ok(index)
    } else {
        Err(ProgramError::NotEnoughAccountKeys)
    }
}

/// Whether an instruction of the counter program succeeds: the counter is the
/// first account, owned by the program, with data free to borrow and at
/// least eight bytes long.
pub open spec fn counter_outcome(program_id: Seq<u8>, accounts: Seq<AccountInfo>) -> Result<
    (),
    ProgramError,
> {
    if accounts.len() == 0 {
        Err(ProgramError::NotEnoughAccountKeys)
    } else if accounts[0].owner@ != program_id {
        Err(ProgramError::IncorrectProgramId)
    } else if accounts[0].data_borrowed {
        Err(ProgramError::AccountBorrowFailed)
    } else if accounts[0].data.len() < 8 {
        Err(ProgramError::AccountDataTooSmall)
    } else {
        Ok(())
    }
}

/// Two accounts that differ at most in their data.
pub open spec fn same_but_data(a: AccountInfo, b: AccountInfo) -> bool {
    &&& a.key == b.key
    &&& a.owner == b.owner
    &&& a.lamports == b.lamports
    &&& a.is_signer == b.is_signer
    &&& a.is_writable == b.is_writable
    &&& a.data_borrowed == b.data_borrowed
}

/// Writes the bytes of `count` over the first eight bytes of `data`.
fn write_count(data: &mut Vec<u8>, count: u64)
    requires
        old(data)@.len() >= 8,
    ensures
        final(data)@ == with_count(old(data)@, count),
{
    let bytes = u64_to_le_bytes(count);
    let mut i: usize = 0;
    while i < COUNT_LEN
        invariant
            0 <= i <= 8,
            bytes@.len() == 8,
            old(data)@.len() >= 8,
            data@.len() == old(data)@.len(),
            forall|j: int| 0 <= j < i ==> data@[j] == bytes@[j],
            forall|j: int| i <= j < data@.len() ==> data@[j] == old(data)@[j],
        decreases 8 - i,
    {
        data.set(i, bytes[i]);
        i += 1;
    }
    assert(data@ =~= with_count(old(data)@, count));
}

/// Raises the counter kept in the first account's data by one.
pub fn process_instruction(
    program_id: &Pubkey,
    accounts: &mut Vec<AccountInfo>,
    _instruction_data: &[u8],
) -> (r: Result<(), ProgramError>)
    requires
        counter_outcome(program_id@, old(accounts)@) is Ok ==> stored_count(
            old(accounts)@[0].data@,
        ) < u64::MAX,
    ensures
        r == counter_outcome(program_id@, old(accounts)@),
        r is Err ==> final(accounts)@ == old(accounts)@,
        r is Ok ==> {
            &&& final(accounts)@.len() == old(accounts)@.len()
            &&& forall|i: int|
                0 < i < old(accounts)@.len() ==> #[trigger] final(accounts)@[i] == old(accounts)@[i]
            &&& same_but_data(final(accounts)@[0], old(accounts)@[0])
            &&& final(accounts)@[0].data@ == with_count(
                old(accounts)@[0].data@,
                (stored_count(old(accounts)@[0].data@) + 1) as u64,
            )
            &&& stored_count(final(accounts)@[0].data@) == stored_count(old(accounts)@[0].data@)
                + 1
        },
{
    let mut cursor: usize = 0;
    let index = next_account(accounts.as_slice(), &mut cursor)?;
    let counter_account = &accounts[index];
    if !(counter_account.owner == *program_id) {
        return Err(ProgramError::IncorrectProgramId);
    }
    if counter_account.data_borrowed {
        return Err(ProgramError::AccountBorrowFailed);
    }
    if counter_account.data.len() < COUNT_LEN {
        return Err(ProgramError::AccountDataTooSmall);
    }
    let front = slice_subrange(counter_account.data.as_slice(), 0, COUNT_LEN);
    assert(front@ =~= counter_account.data@.take(8));
    let count = u64_from_le_bytes(front);
    proof {
        lemma_count_read_back(accounts@[0].data@, (count + 1) as u64);
    }
    write_count(&mut accounts[index].data, count + 1);
    Ok(())
}

// ------------------------------------------------------------------
// Laws
// ------------------------------------------------------------------
/// The count written into data of at least eight bytes is the count read
/// back; the data keeps its length and the bytes past the count.
pub proof fn lemma_count_read_back(data: Seq<u8>, count: u64)
    requires
        data.len() >= 8,
    ensures
        stored_count(with_count(data, count)) == count,
        with_count(data, count).len() == data.len(),
        with_count(data, count).skip(8) == data.skip(8),
{
    vstd::bytes::lemma_auto_spec_u64_to_from_le_bytes();
    let written = with_count(data, count);
    assert(written.take(8) =~= spec_u64_to_le_bytes(count));
    assert(written.skip(8) =~= data.skip(8));
}

} // verus!
