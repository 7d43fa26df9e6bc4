//! The program addresses that only the runtime can compute, behind trusted
//! items.
use vstd::prelude::*;

verus! {

/// The program address, and its bump seed, that the runtime derives from
/// `seeds` and `program_id`: the first bump, counted down from 255, whose
/// hash with the seeds and the program id lies off the ed25519 curve.
pub uninterp spec fn program_derived_address(seeds: Seq<Seq<u8>>, program_id: Seq<u8>) -> (Seq<u8>, u8);

/// The seeds of a call, each taken by its bytes.
pub open spec fn seed_bytes(seeds: Seq<&[u8]>) -> Seq<Seq<u8>> {
    seeds.map_values(|seed: &[u8]| seed@)
}

/// Asks the runtime for the program address of `seeds` and `program_id`,
/// through `pinocchio::pubkey::try_find_program_address`.
///
/// Trusted: where it returns an address and a bump, they are the derived
/// ones. Whether it returns one at all depends on the machine: the runtime's
/// syscall answers (unless no bump seed works, which is statistically
/// improbable), while on any other target the crate returns `None` always.
/// Nothing is stated of that choice.
#[verifier::external_body]
pub(crate) fn try_find_program_address(seeds: &[&[u8]], program_id: &[u8; 32]) -> (found: Option<([u8; 32], u8)>)
    ensures
        found matches Some((key, bump)) ==> (key@, bump) == program_derived_address(
            seed_bytes(seeds@),
            program_id@,
        ),
{
    pinocchio::pubkey::try_find_program_address(seeds, program_id)
}

/// The address of the system program: 32 zero bytes
/// (`11111111111111111111111111111111` in base 58).
pub open spec fn system_program_bytes() -> Seq<u8> {
    Seq::new(32, |_i: int| 0u8)
}

/// Reads `pinocchio_system::ID`, the address of the system program.
///
/// Trusted: the crate declares it from the base-58 string of 32 ones, which
/// decodes to 32 zero bytes.
#[verifier::external_body]
pub(crate) fn system_program_id() -> (id: [u8; 32])
    ensures
        id@ == system_program_bytes(),
{
    pinocchio_system::ID
}

} // verus!
