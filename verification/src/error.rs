//! The failures that an invocation can report.

use vstd::prelude::*;

verus! {

/// Why an invocation failed.
#[derive(Clone, Copy, Debug, PartialEq, Eq, Structural)]
pub enum ProgramError {
    /// The instruction buffer is not the encoding of any instruction.
    InvalidInstructionData,
    /// The account's bytes are not a record, or its count cannot grow.
    InvalidAccountData,
    /// The account is not owned by the executing program.
    IncorrectProgramId,
    /// The invocation names fewer accounts than the instruction needs.
    NotEnoughAccountKeys,
    /// The account's buffer cannot take the record.
    BorshIoError,
    /// The nested account creation failed; the host's code is kept as it came.
    Nested(u64),
}

} // verus!
