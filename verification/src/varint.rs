//! Variable-length integers.
//!
//! A varint holds a 32-bit signed integer in one to five bytes. Each byte
//! gives seven bits, least significant group first; its high bit says
//! whether another byte follows. No encoding is preferred over another: a
//! value padded with empty continuation groups decodes like the short form.

use crate::cursor::{get_u8, remaining};
use crate::decoded::{realizes, Decoded};
use crate::error::MinecraftParseError;
use vstd::prelude::*;

verus! {

/// The largest number of bytes that a varint may occupy.
pub const VARINT_MAX_BYTES: usize = 5;

/// Whether `byte` says that another byte of the varint follows.
pub open spec fn continues(byte: u8) -> bool {
    byte >= 0x80
}

/// The seven bits that `byte` gives to the integer.
pub open spec fn group(byte: u8) -> int {
    byte as int % 0x80
}

/// Whether the byte at `index` exists and is the last of a varint.
pub open spec fn ends_at(bytes: Seq<u8>, index: int) -> bool {
    index < bytes.len() && !continues(bytes[index])
}

/// Whether the byte at `index` exists and asks for another one.
pub open spec fn continues_at(bytes: Seq<u8>, index: int) -> bool {
    index < bytes.len() && continues(bytes[index])
}

/// The number of bytes of the varint at the front of `bytes`: the position
/// of the first byte without the continuation bit, counted from one. There
/// is none if the bytes run out before such a byte, or if the first five
/// bytes all have the bit.
pub open spec fn varint_len(bytes: Seq<u8>) -> Option<nat> {
    if ends_at(bytes, 0) {
        Some(1)
    } else if !continues_at(bytes, 0) {
        None
    } else if ends_at(bytes, 1) {
        Some(2)
    } else if !continues_at(bytes, 1) {
        None
    } else if ends_at(bytes, 2) {
        Some(3)
    } else if !continues_at(bytes, 2) {
        None
    } else if ends_at(bytes, 3) {
        Some(4)
    } else if !continues_at(bytes, 3) {
        None
    } else if ends_at(bytes, 4) {
        Some(5)
    } else {
        None
    }
}

/// The group of the byte at `index` if that byte is among the first `count`,
/// and zero otherwise.
pub open spec fn group_within(bytes: Seq<u8>, count: nat, index: int) -> int {
    if index < count {
        group(bytes[index])
    } else {
        0
    }
}

/// The groups of the first `count` bytes of `bytes`, at most five, put
/// together: the group at position `i` weighs 2 to the power 7 × `i`.
pub open spec fn groups_value(bytes: Seq<u8>, count: nat) -> int {
    group_within(bytes, count, 0) + 0x80 * group_within(bytes, count, 1) + 0x4000 * group_within(
        bytes,
        count,
        2,
    ) + 0x20_0000 * group_within(bytes, count, 3) + 0x1000_0000 * group_within(bytes, count, 4)
}

/// The 32-bit signed integer whose two's complement bit pattern is the low
/// 32 bits of `bits`.
pub open spec fn twos_complement(bits: int) -> i32 {
    let low = bits % 0x1_0000_0000;
    if low < 0x8000_0000 {
        low as i32
    } else {
        (low - 0x1_0000_0000) as i32
    }
}

/// The varint at the front of `bytes`: its value and its length, or
/// `InvalidVarInt` where there is no complete varint of at most five bytes.
///
/// The definition is opaque, so that proofs about packets of several fields
/// need not look inside each varint: `reveal(spec_varint)` where the value
/// of a particular varint matters.
#[verifier::opaque]
pub open spec fn spec_varint(bytes: Seq<u8>) -> Decoded<i32> {
    match varint_len(bytes) {
        Some(len) => Ok((twos_complement(groups_value(bytes, len)), len)),
        None => Err(MinecraftParseError::InvalidVarInt),
    }
}

/// Decodes the varint at the cursor and moves the cursor past it.
///
/// Fails with `InvalidVarInt` if the buffer ends before a byte without the
/// continuation bit has been read, or if the fifth byte still has it.
pub fn parse_varint(buf: &mut &[u8]) -> (result: Result<i32, MinecraftParseError>)
    ensures
        realizes(result, final(buf)@, old(buf)@, spec_varint(old(buf)@)),
{
    let ghost input = buf@;
    let mut v: u32 = 0;
    let mut bit_place: u32 = 0;
    let mut i: usize = 0;
    let mut has_more = true;

    while has_more
        invariant
            input == old(buf)@,
            i <= VARINT_MAX_BYTES,
            i <= input.len(),
            bit_place == 7 * i,
            buf@ == input.skip(i as int),
            has_more ==> forall|j: int| 0 <= j < i ==> continues(input[j]),
            !has_more ==> i >= 1 && !continues(input[i - 1]) && forall|j: int|
                0 <= j < i - 1 ==> continues(input[j]),
            v as int == groups_value(input, i as nat) % 0x1_0000_0000,
        decreases VARINT_MAX_BYTES - i + (if has_more { 1int } else { 0int }),
    {
        proof {
            reveal(spec_varint);
        }
        if i == VARINT_MAX_BYTES {
            return Err(MinecraftParseError::InvalidVarInt);
        }
        if remaining(*buf) < 1 {
            return Err(MinecraftParseError::InvalidVarInt);
        }
        let byte: u8 = get_u8(buf);

        has_more = byte & 0x80 != 0;
        let bits: u32 = (byte & 0x7F) as u32;
        proof {
            assert(byte == input[i as int]);
            assert((byte & 0x80 != 0) == (byte >= 0x80)) by (bit_vector);
            assert((byte & 0x7F) == byte % 0x80) by (bit_vector);
            if i == 0 {
                assert(v < 1 ==> (v | (bits << 0u32)) == v + bits) by (bit_vector)
                    requires
                        bits < 0x80,
                ;
            } else if i == 1 {
                assert(v < 0x80 ==> (v | (bits << 7u32)) == v + 0x80 * bits) by (bit_vector)
                    requires
                        bits < 0x80,
                ;
            } else if i == 2 {
                assert(v < 0x4000 ==> (v | (bits << 14u32)) == v + 0x4000 * bits) by (bit_vector)
                    requires
                        bits < 0x80,
                ;
            } else if i == 3 {
                assert(v < 0x20_0000 ==> (v | (bits << 21u32)) == v + 0x20_0000 * bits)
                    by (bit_vector)
                    requires
                        bits < 0x80,
                ;
            } else {
                assert(v < 0x1000_0000 ==> (v | (bits << 28u32)) == (v + 0x1000_0000 * bits)
                    % 0x1_0000_0000) by (bit_vector)
                    requires
                        bits < 0x80,
                ;
            }
        }
        v |= bits << bit_place;
        bit_place += 7;
        i += 1;
    }

    let value: i32 = #[verifier::truncate] (v as i32);
    proof {
        reveal(spec_varint);
        assert(v < 0x8000_0000 ==> v as i32 == v) by (bit_vector);
        assert(v >= 0x8000_0000 ==> v as i32 == v - 0x1_0000_0000) by (bit_vector);
    }
    Ok(value)
}

/// A varint occupies between one and five bytes, all of them present.
pub proof fn lemma_varint_len_bounds(bytes: Seq<u8>)
    ensures
        spec_varint(bytes) matches Ok((_, len)) ==> 1 <= len <= VARINT_MAX_BYTES && len
            <= bytes.len(),
{
    reveal(spec_varint);
}

/// No bytes, no varint.
pub proof fn lemma_varint_needs_a_byte(bytes: Seq<u8>)
    requires
        bytes.len() < 1,
    ensures
        spec_varint(bytes) == Err::<(i32, nat), MinecraftParseError>(
            MinecraftParseError::InvalidVarInt,
        ),
{
    reveal(spec_varint);
}

/// Bytes that signal continuation throughout, up to and including the fifth
/// where there are that many, hold no varint: the encoding is cut short or
/// too long.
pub proof fn lemma_varint_never_ending(bytes: Seq<u8>)
    requires
        forall|i: int| 0 <= i < bytes.len() && i < VARINT_MAX_BYTES ==> continues(bytes[i]),
    ensures
        spec_varint(bytes) == Err::<(i32, nat), MinecraftParseError>(
            MinecraftParseError::InvalidVarInt,
        ),
{
    reveal(spec_varint);
}

} // verus!
