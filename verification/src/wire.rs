//! Reading little-endian fields off the front of a byte slice.

use bytes::Buf;
use vstd::prelude::*;

verus! {

/// The number that a sequence of bytes spells in little-endian order.
pub open spec fn le_value(bytes: Seq<u8>) -> nat
    decreases bytes.len(),
{
    if bytes.len() == 0 {
        0
    } else {
        bytes[0] as nat + 256 * le_value(bytes.skip(1))
    }
}

/// Two bytes spell their first plus 256 times their second.
pub proof fn lemma_le_value_of_two(bytes: Seq<u8>)
    requires
        bytes.len() == 2,
    ensures
        le_value(bytes) == bytes[0] + 256 * bytes[1],
        le_value(bytes) <= u16::MAX,
{
    reveal_with_fuel(le_value, 3);
    assert(bytes.skip(1)[0] == bytes[1]);
}

/// Three bytes spell their first, plus 256 times their second, plus 65536
/// times their third.
pub proof fn lemma_le_value_of_three(bytes: Seq<u8>)
    requires
        bytes.len() == 3,
    ensures
        le_value(bytes) == bytes[0] + 256 * bytes[1] + 65536 * bytes[2],
        le_value(bytes) < 0x100_0000,
{
    reveal_with_fuel(le_value, 4);
    assert(bytes.skip(1)[0] == bytes[1]);
    assert(bytes.skip(1).skip(1)[0] == bytes[2]);
}

/// Calls `bytes::Buf::advance` on a byte slice: the result is the slice
/// without its first `cnt` bytes.  The call panics when fewer are left, which
/// the precondition excludes.
#[verifier::external_body]
pub(crate) fn advance(bytes: &[u8], cnt: usize) -> (rest: &[u8])
    requires
        cnt <= bytes@.len(),
    ensures
        rest@ == bytes@.skip(cnt as int),
{
    let mut cursor = bytes;
    cursor.advance(cnt);
    cursor
}

/// Calls `bytes::Buf::get_u8` on a byte slice: hands back the first byte and
/// the slice behind it.  The call panics on an empty slice, which the
/// precondition excludes.
#[verifier::external_body]
pub(crate) fn get_u8(bytes: &[u8]) -> (taken: (u8, &[u8]))
    requires
        bytes@.len() >= 1,
    ensures
        taken.0 == bytes@[0],
        taken.1@ == bytes@.skip(1),
{
    let mut cursor = bytes;
    let value = cursor.get_u8();
    (value, cursor)
}

/// Calls `bytes::Buf::get_u16_le` on a byte slice: hands back the number
/// that the first two bytes spell in little-endian order, and the slice
/// behind them.  The call panics when fewer than two bytes are left, which
/// the precondition excludes.
#[verifier::external_body]
pub(crate) fn get_u16_le(bytes: &[u8]) -> (taken: (u16, &[u8]))
    requires
        bytes@.len() >= 2,
    ensures
        taken.0 == le_value(bytes@.take(2)),
        taken.1@ == bytes@.skip(2),
{
    let mut cursor = bytes;
    let value = cursor.get_u16_le();
    (value, cursor)
}

/// Calls `bytes::Buf::get_uint_le` on a byte slice: hands back the number
/// that the first `nbytes` bytes spell in little-endian order, and the slice
/// behind them.  The call panics when `nbytes` exceeds 8 or the bytes left,
/// which the precondition excludes.
#[verifier::external_body]
pub(crate) fn get_uint_le(bytes: &[u8], nbytes: usize) -> (taken: (u64, &[u8]))
    requires
        nbytes <= 8,
        nbytes <= bytes@.len(),
    ensures
        taken.0 == le_value(bytes@.take(nbytes as int)),
        taken.1@ == bytes@.skip(nbytes as int),
{
    let mut cursor = bytes;
    let value = cursor.get_uint_le(nbytes);
    (value, cursor)
}

} // verus!
