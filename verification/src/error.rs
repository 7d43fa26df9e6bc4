//! Errors that the programs report to the runtime.
use vstd::prelude::*;

verus! {

/// The runtime errors that the programs of this crate return.
#[derive(Clone, Copy, Debug, PartialEq, Eq, Structural)]
pub enum ProgramError {
    /// The instruction data is malformed.
    InvalidInstructionData,
    /// An account's data or balance is not what the instruction expects.
    InvalidAccountData,
    /// An account's data is shorter than the instruction needs.
    AccountDataTooSmall,
    /// An account is not owned by the expected program.
    IncorrectProgramId,
    /// Fewer accounts were passed than the instruction needs.
    NotEnoughAccountKeys,
    /// An account's data is already borrowed.
    AccountBorrowFailed,
    /// An account has the wrong owner, signer or address.
    InvalidAccountOwner,
    /// No program address can be derived from the seeds.
    InvalidSeeds,
}

} // verus!
