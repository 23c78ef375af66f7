//! Decoding a raw instruction buffer into a typed operation.

use vstd::prelude::*;

use crate::error::ProgramError;

verus! {

/// The operation a caller requests, decoded from the first byte of the
/// instruction buffer. It carries no payload beyond the tag.
#[derive(Clone, Copy, Debug, PartialEq, Eq, Structural)]
pub enum HelloInstruction {
    Increment,
    Decrement,
    Reset,
}

/// What decoding a buffer yields: the first byte is the discriminant
/// (0 increment, 1 decrement, 2 reset), trailing bytes are ignored, and an
/// empty buffer or an unknown discriminant is a decoding failure.
pub open spec fn spec_unpack(data: Seq<u8>) -> Result<HelloInstruction, ProgramError> {
    if data.len() == 0 {
        Err(ProgramError::InvalidInstructionData)
    } else if data[0] == 0 {
        Ok(HelloInstruction::Increment)
    } else if data[0] == 1 {
        Ok(HelloInstruction::Decrement)
    } else if data[0] == 2 {
        Ok(HelloInstruction::Reset)
    } else {
        Err(ProgramError::InvalidInstructionData)
    }
}

impl HelloInstruction {
    /// Decode an instruction buffer: a pure, total function of the bytes.
    pub fn unpack(input: &[u8]) -> (r: Result<HelloInstruction, ProgramError>)
        ensures
            r == spec_unpack(input@),
    {
        if input.len() == 0 {
            return Err(ProgramError::InvalidInstructionData);
        }
        match input[0] {
            0 => Ok(HelloInstruction::Increment),
            1 => Ok(HelloInstruction::Decrement),
            2 => Ok(HelloInstruction::Reset),
            _ => Err(ProgramError::InvalidInstructionData),
        }
    }
}

/// A buffer whose first byte is not one of the three known discriminants is
/// rejected as invalid instruction data, whatever follows that byte.
pub proof fn lemma_unknown_discriminant_rejected(data: Seq<u8>)
    requires
        data.len() > 0,
        data[0] >= 3,
    ensures
        spec_unpack(data) == Err::<HelloInstruction, ProgramError>(
            ProgramError::InvalidInstructionData,
        ),
{
}

/// An empty buffer is rejected as invalid instruction data: decoding never
/// even looks at a discriminant.
pub proof fn lemma_empty_buffer_rejected(data: Seq<u8>)
    requires
        data.len() == 0,
    ensures
        spec_unpack(data) == Err::<HelloInstruction, ProgramError>(
            ProgramError::InvalidInstructionData,
        ),
{
}

} // verus!
