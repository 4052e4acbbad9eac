//! Fixed-width 16-bit unsigned integers, big-endian.

use crate::cursor::{get_u16, remaining};
use crate::decoded::{realizes, Decoded};
use crate::error::MinecraftParseError;
use vstd::prelude::*;

verus! {

/// The 16-bit field at the front of `bytes`: the first byte is the high one.
/// `InvalidUShort` where fewer than two bytes are there.
pub open spec fn spec_ushort(bytes: Seq<u8>) -> Decoded<u16> {
    if bytes.len() >= 2 {
        Ok(((bytes[0] * 0x100 + bytes[1]) as u16, 2))
    } else {
        Err(MinecraftParseError::InvalidUShort)
    }
}

/// Decodes the 16-bit field at the cursor and moves the cursor past it.
///
/// Fails with `InvalidUShort` if fewer than two bytes are left; the cursor
/// then stays where it was.
pub fn parse_ushort(buf: &mut &[u8]) -> (result: Result<u16, MinecraftParseError>)
    ensures
        realizes(result, final(buf)@, old(buf)@, spec_ushort(old(buf)@)),
        result is Err ==> final(buf)@ == old(buf)@,
{
    if remaining(*buf) < 2 {
        return Err(MinecraftParseError::InvalidUShort);
    }
    let val: u16 = get_u16(buf);
    Ok(val)
}

/// Fewer than two bytes, none included, never make a 16-bit field.
pub proof fn lemma_ushort_needs_two_bytes(bytes: Seq<u8>)
    requires
        bytes.len() < 2,
    ensures
        spec_ushort(bytes) == Err::<(u16, nat), MinecraftParseError>(
            MinecraftParseError::InvalidUShort,
        ),
{
}

} // verus!
