//! Little-endian integers as byte sequences, and the two `borsh` calls that
//! turn a `u64` into its eight bytes and back.

use vstd::prelude::*;

verus! {

/// The number that `bytes` spells, least significant byte first.
pub open spec fn le_value(bytes: Seq<u8>) -> nat
    decreases bytes.len(),
{
    if bytes.len() == 0 {
        0
    } else {
        bytes[0] as nat + 256 * le_value(bytes.drop_first())
    }
}

/// The `width` least significant bytes of `value`, least significant first.
pub open spec fn le_bytes(value: nat, width: nat) -> Seq<u8>
    decreases width,
{
    if width == 0 {
        Seq::empty()
    } else {
        seq![(value % 256) as u8] + le_bytes(value / 256, (width - 1) as nat)
    }
}

/// One more than the largest number that `width` bytes can spell.
pub open spec fn le_limit(width: nat) -> nat
    decreases width,
{
    if width == 0 {
        1
    } else {
        256 * le_limit((width - 1) as nat)
    }
}

/// `le_bytes` yields exactly `width` bytes.
pub proof fn lemma_le_bytes_len(value: nat, width: nat)
    ensures
        le_bytes(value, width).len() == width,
    decreases width,
{
    if width > 0 {
        lemma_le_bytes_len(value / 256, (width - 1) as nat);
    }
}

/// Bytes spell a number below the limit of their count.
pub proof fn lemma_le_value_bound(bytes: Seq<u8>)
    ensures
        le_value(bytes) < le_limit(bytes.len()),
    decreases bytes.len(),
{
    if bytes.len() > 0 {
        lemma_le_value_bound(bytes.drop_first());
    }
}

/// A number below the limit is read back from its bytes.
pub proof fn lemma_le_value_of_bytes(value: nat, width: nat)
    requires
        value < le_limit(width),
    ensures
        le_value(le_bytes(value, width)) == value,
    decreases width,
{
    if width > 0 {
        let rest = le_bytes(value / 256, (width - 1) as nat);
        let all = le_bytes(value, width);
        lemma_le_value_of_bytes(value / 256, (width - 1) as nat);
        assert(all.drop_first() =~= rest);
        assert(all[0] == (value % 256) as u8);
    }
}

/// Bytes are written back from the number they spell.
pub proof fn lemma_le_bytes_of_value(bytes: Seq<u8>)
    ensures
        le_bytes(le_value(bytes), bytes.len()) == bytes,
    decreases bytes.len(),
{
    if bytes.len() > 0 {
        let tail = bytes.drop_first();
        lemma_le_bytes_of_value(tail);
        let value = le_value(bytes);
        assert(value % 256 == bytes[0] as nat);
        assert(value / 256 == le_value(tail));
        assert(le_bytes(value, bytes.len()) =~= bytes);
    } else {
        assert(le_bytes(le_value(bytes), bytes.len()) =~= bytes);
    }
}

/// Eight bytes hold exactly the numbers of a `u64`.
pub proof fn lemma_le_limit_u64()
    ensures
        le_limit(8) == u64::MAX + 1,
{
    reveal_with_fuel(le_limit, 9);
}

/// The error type of `borsh`'s readers and writers, carried through unread.
#[verifier::external_type_specification]
#[verifier::external_body]
pub struct ExIoError(borsh::io::Error);

/// Calls `borsh::to_vec` on a `u64`. That function writes the integer's
/// `to_le_bytes` into a fresh vector, which cannot fail: the result is `Ok`
/// and holds the eight bytes of `value`, least significant first.
#[verifier::external_body]
pub(crate) fn u64_to_vec(value: u64) -> (out: Result<Vec<u8>, borsh::io::Error>)
    ensures
        out is Ok,
        out matches Ok(bytes) ==> bytes@ == le_bytes(value as nat, 8),
{
    borsh::to_vec(&value)
}

/// Calls `borsh::from_slice` for a `u64`. That function reads eight bytes,
/// fails if there are fewer, applies `from_le_bytes`, and fails if any byte
/// is left over: the result is `Ok` exactly on eight bytes, with the number
/// they spell.
#[verifier::external_body]
pub(crate) fn u64_from_slice(bytes: &[u8]) -> (out: Result<u64, borsh::io::Error>)
    ensures
        out is Ok <==> bytes@.len() == 8,
        out matches Ok(value) ==> value as nat == le_value(bytes@),
{
    borsh::from_slice::<u64>(bytes)
}

} // verus!
