//! The errors a program invocation can surface to its caller.

use vstd::prelude::*;

verus! {

/// Why an invocation failed. Every error is surfaced immediately, with no
/// local recovery and no partial write to the account's storage.
#[derive(Clone, Copy, Debug, PartialEq, Eq, Structural)]
pub enum ProgramError {
    /// The instruction buffer was empty or its first byte was not a known
    /// discriminant.
    InvalidInstructionData,
    /// The account list was empty although an account is required.
    NotEnoughAccountKeys,
    /// The first account's recorded owner differs from the invoking
    /// program's identity.
    IncorrectProgramId,
    /// The account's stored bytes do not match the fixed four-byte counter
    /// layout.
    BorshIoError,
}

} // verus!
