//! The record that a counter account stores, and its eight-byte encoding.

use vstd::prelude::*;
use crate::error::ProgramError;
use crate::wire::{le_bytes, le_value, lemma_le_bytes_len, lemma_le_bytes_of_value,
    lemma_le_limit_u64, lemma_le_value_bound, lemma_le_value_of_bytes, u64_from_slice,
    u64_to_vec};

verus! {

/// The number of bytes that a record occupies.
pub const RECORD_LEN: usize = 8;

/// The stored state of a counter.
#[derive(Clone, Copy, Debug, PartialEq, Eq, Structural)]
pub struct CounterAccount {
    pub count: u64,
}

impl CounterAccount {
    /// The record's bytes: its count, least significant byte first.
    pub open spec fn encoding(self) -> Seq<u8> {
        le_bytes(self.count as nat, 8)
    }

    /// The record that `data` holds, if it is one: exactly eight bytes.
    pub open spec fn decoding(data: Seq<u8>) -> Option<CounterAccount> {
        if data.len() == 8 {
            Some(CounterAccount { count: le_value(data) as u64 })
        } else {
            None
        }
    }

    /// Reads a record from the whole of `data`.
    pub fn try_from_slice(data: &[u8]) -> (out: Result<CounterAccount, ProgramError>)
        ensures
            out == match Self::decoding(data@) {
                Some(record) => Ok::<CounterAccount, ProgramError>(record),
                None => Err(ProgramError::InvalidAccountData),
            },
    {
        match u64_from_slice(data) {
            Ok(count) => {
                proof {
                    lemma_le_value_bound(data@);
                    lemma_le_limit_u64();
                }
                Ok(CounterAccount { count })
            },
            Err(_) => Err(ProgramError::InvalidAccountData),
        }
    }

    /// Writes the record over the first eight bytes of `buffer`. A shorter
    /// buffer is refused and left as it was.
    pub fn serialize(&self, buffer: &mut Vec<u8>) -> (out: Result<(), ProgramError>)
        ensures
            old(buffer)@.len() >= 8 ==> out is Ok && final(buffer)@ == self.encoding() + old(
                buffer,
            )@.skip(8),
            old(buffer)@.len() < 8 ==> out == Err::<(), ProgramError>(ProgramError::BorshIoError)
                && final(buffer)@ == old(buffer)@,
    {
        if buffer.len() < RECORD_LEN {
            return Err(ProgramError::BorshIoError);
        }
        let ghost before = buffer@;
        match u64_to_vec(self.count) {
            Ok(bytes) => {
                proof {
                    lemma_le_bytes_len(self.count as nat, 8);
                }
                let mut i: usize = 0;
                while i < RECORD_LEN
                    invariant
                        i <= 8,
                        bytes@.len() == 8,
                        buffer@.len() == before.len(),
                        before.len() >= 8,
                        forall|j: int| 0 <= j < i ==> buffer@[j] == bytes@[j],
                        forall|j: int| i <= j < before.len() ==> buffer@[j] == before[j],
                    decreases 8 - i,
                {
                    buffer.set(i, bytes[i]);
                    i += 1;
                }
                assert(buffer@ =~= bytes@ + before.skip(8));
                Ok(())
            },
            Err(_) => Err(ProgramError::BorshIoError),
        }
    }
}

/// A record is read back from its own encoding.
pub proof fn lemma_record_round_trip(record: CounterAccount)
    ensures
        record.encoding().len() == 8,
        CounterAccount::decoding(record.encoding()) == Some(record),
{
    lemma_le_bytes_len(record.count as nat, 8);
    lemma_le_limit_u64();
    lemma_le_value_of_bytes(record.count as nat, 8);
}

/// Eight bytes are the encoding of the record they hold, and of no other.
pub proof fn lemma_record_encoding_unique(data: Seq<u8>)
    requires
        data.len() == 8,
    ensures
        CounterAccount::decoding(data) matches Some(record) && record.encoding() == data
            && record.count == le_value(data),
{
    lemma_le_value_bound(data);
    lemma_le_limit_u64();
    lemma_le_bytes_of_value(data);
}

} // verus!
