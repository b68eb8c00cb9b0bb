//! The two instructions of the program, and their tag-prefixed encoding.

use vstd::prelude::*;
use vstd::slice::slice_subrange;
use crate::error::ProgramError;
use crate::wire::{le_bytes, le_value, lemma_le_bytes_len, lemma_le_limit_u64,
    lemma_le_value_bound, lemma_le_value_of_bytes, u64_from_slice, u64_to_vec};

verus! {

/// The tag byte of `InitializeCounter`.
pub const TAG_INITIALIZE: u8 = 0;

/// The tag byte of `IncrementCounter`.
pub const TAG_INCREMENT: u8 = 1;

/// What a caller can ask of the program.
#[derive(Clone, Copy, Debug, PartialEq, Eq, Structural)]
pub enum CounterInstruction {
    /// Create the counter's account and store `initial_value` in it.
    InitializeCounter { initial_value: u64 },
    /// Add one to the stored count.
    IncrementCounter,
}

impl CounterInstruction {
    /// The instruction's bytes: its tag, then the payload if it has one.
    pub open spec fn encoding(self) -> Seq<u8> {
        match self {
            CounterInstruction::InitializeCounter { initial_value } => seq![0u8] + le_bytes(
                initial_value as nat,
                8,
            ),
            CounterInstruction::IncrementCounter => seq![1u8],
        }
    }

    /// The instruction that `data` encodes, if any. Nothing may follow the
    /// payload, and nothing may be missing from it.
    pub open spec fn decoding(data: Seq<u8>) -> Option<CounterInstruction> {
        if data.len() == 9 && data[0] == 0 {
            Some(
                CounterInstruction::InitializeCounter {
                    initial_value: le_value(data.subrange(1, 9)) as u64,
                },
            )
        } else if data.len() == 1 && data[0] == 1 {
            Some(CounterInstruction::IncrementCounter)
        } else {
            None
        }
    }

    /// Reads an instruction from the whole of `data`.
    pub fn try_from_slice(data: &[u8]) -> (out: Result<CounterInstruction, ProgramError>)
        ensures
            out == match Self::decoding(data@) {
                Some(instruction) => Ok::<CounterInstruction, ProgramError>(instruction),
                None => Err(ProgramError::InvalidInstructionData),
            },
            data@.len() == 0 || (data@[0] != 0 && data@[0] != 1) ==> out == Err::<
                CounterInstruction,
                ProgramError,
            >(ProgramError::InvalidInstructionData),
    {
        if data.len() == 0 {
            return Err(ProgramError::InvalidInstructionData);
        }
        let tag = data[0];
        if tag == TAG_INITIALIZE {
            let payload = slice_subrange(data, 1, data.len());
            match u64_from_slice(payload) {
                Ok(initial_value) => {
                    proof {
                        lemma_le_value_bound(payload@);
                        lemma_le_limit_u64();
                    }
                    Ok(CounterInstruction::InitializeCounter { initial_value })
                },
                Err(_) => Err(ProgramError::InvalidInstructionData),
            }
        } else if tag == TAG_INCREMENT && data.len() == 1 {
            Ok(CounterInstruction::IncrementCounter)
        } else {
            Err(ProgramError::InvalidInstructionData)
        }
    }

    /// Writes the instruction's encoding into a fresh vector.
    pub fn to_vec(&self) -> (out: Vec<u8>)
        ensures
            out@ == self.encoding(),
    {
        let mut out: Vec<u8> = Vec::new();
        match self {
            CounterInstruction::InitializeCounter { initial_value } => {
                out.push(TAG_INITIALIZE);
                match u64_to_vec(*initial_value) {
                    Ok(payload) => {
                        out.extend_from_slice(payload.as_slice());
                    },
                    Err(_) => {},
                }
            },
            CounterInstruction::IncrementCounter => {
                out.push(TAG_INCREMENT);
            },
        }
        out
    }
}

/// An instruction is read back from its own encoding.
pub proof fn lemma_instruction_round_trip(instruction: CounterInstruction)
    ensures
        CounterInstruction::decoding(instruction.encoding()) == Some(instruction),
{
    match instruction {
        CounterInstruction::InitializeCounter { initial_value } => {
            let payload = le_bytes(initial_value as nat, 8);
            lemma_le_bytes_len(initial_value as nat, 8);
            lemma_le_limit_u64();
            lemma_le_value_of_bytes(initial_value as nat, 8);
            assert(instruction.encoding().subrange(1, 9) =~= payload);
        },
        CounterInstruction::IncrementCounter => {},
    }
}

} // verus!
