//! The ways in which processing an instruction can fail.

use solana_program::program_error::ProgramError;
use vstd::prelude::*;

verus! {

/// The host's error type. It is carried through unread: the program only
/// hands on what a delegated call returned.
#[verifier::external_type_specification]
#[verifier::external_body]
pub struct ExProgramError(ProgramError);

/// Why an instruction was not carried out. The first failure ends the call.
#[derive(Debug, PartialEq, Eq)]
pub enum ProcessError {
    /// The instruction bytes are empty, carry an unknown tag, or end before
    /// the amount does.
    InvalidInstructionData,
    /// The instruction needs more accounts than it was given.
    NotEnoughAccountKeys,
    /// The target account is not owned by this program.
    IncorrectProgramId,
    /// No bump seed yields a program-derived address for the given seeds.
    InvalidSeeds,
    /// The bytes do not hold a counter record: an account has fewer bytes
    /// than a record takes.
    Deserialization,
    /// The bytes have no room to write a counter record to.
    Serialization,
    /// The counter already holds the largest value it can.
    ArithmeticOverflow,
    /// The delegated call failed; its error is handed on as it came.
    Delegated(ProgramError),
}

} // verus!
