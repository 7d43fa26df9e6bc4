//! The plain values of an account that the programs read and write.
use vstd::prelude::*;
use crate::pubkey::Pubkey;

verus! {

/// An account as the runtime hands it to a program.
pub struct AccountInfo {
    /// The account's address.
    pub key: Pubkey,
    /// The program that owns the account.
    pub owner: Pubkey,
    /// The account's balance.
    pub lamports: u64,
    /// Whether the transaction is signed by this account.
    pub is_signer: bool,
    /// Whether the account may be written by this instruction.
    pub is_writable: bool,
    /// The account's data.
    pub data: Vec<u8>,
    /// Whether the account's data is borrowed elsewhere at this moment.
    pub data_borrowed: bool,
}

} // verus!
