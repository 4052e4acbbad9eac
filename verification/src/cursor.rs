//! The byte cursor that the decoders read from.
//!
//! A cursor is a shared byte slice held behind a mutable reference: reading
//! shortens the slice from the front. The reads themselves are done by the
//! `bytes` crate's `Buf` implementation for `&[u8]`; the functions in this
//! module give those calls their contracts, which Verus takes on trust.

use vstd::prelude::*;

verus! {

/// `bytes::Buf::remaining` on a byte slice: the number of bytes left to read,
/// which for a slice is its length.
#[verifier::external_body]
pub(crate) fn remaining(buf: &[u8]) -> (n: usize)
    ensures
        n == buf@.len(),
{
    bytes::Buf::remaining(&buf)
}

/// `bytes::Buf::get_u8` on a byte slice: hands out the first byte and moves
/// the cursor past it. The call panics on an empty slice, which the
/// precondition rules out.
#[verifier::external_body]
pub(crate) fn get_u8(buf: &mut &[u8]) -> (byte: u8)
    requires
        old(buf)@.len() >= 1,
    ensures
        byte == old(buf)@[0],
        final(buf)@ == old(buf)@.skip(1),
{
    bytes::Buf::get_u8(buf)
}

/// `bytes::Buf::get_u16` on a byte slice: reads the first two bytes as a
/// big-endian number and moves the cursor past them. The call panics when
/// fewer than two bytes are left, which the precondition rules out.
#[verifier::external_body]
pub(crate) fn get_u16(buf: &mut &[u8]) -> (value: u16)
    requires
        old(buf)@.len() >= 2,
    ensures
        value == old(buf)@[0] * 0x100 + old(buf)@[1],
        final(buf)@ == old(buf)@.skip(2),
{
    bytes::Buf::get_u16(buf)
}

/// `bytes::Buf::copy_to_bytes` on a byte slice: hands out a copy of the first
/// `len` bytes, here moved from the crate's `Bytes` into a `Vec`, and moves
/// the cursor past them. The call panics when fewer than `len` bytes are
/// left, which the precondition rules out.
#[verifier::external_body]
pub(crate) fn copy_to_bytes(buf: &mut &[u8], len: usize) -> (bytes: Vec<u8>)
    requires
        len <= old(buf)@.len(),
    ensures
        bytes@ == old(buf)@.take(len as int),
        final(buf)@ == old(buf)@.skip(len as int),
{
    bytes::Buf::copy_to_bytes(buf, len).to_vec()
}

} // verus!
