//! Verified core of a set of small Solana programs: a counter with an
//! authority, a counter kept in raw account data, a lamport vault at a
//! program-derived address, and the checks of the accompanying lessons.
//!
//! The programs' decisions are made here on plain values; the runtime calls
//! (cross-program transfers, account borrowing) are left to their callers,
//! which receive from this crate the transfer to perform.
pub mod account;
pub mod address;
pub mod anchor_counter;
pub mod counter_program;
pub mod error;
pub mod lessons;
pub mod pubkey;
pub mod vault;
