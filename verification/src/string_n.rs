//! Length-prefixed strings.
//!
//! A string is a varint that gives its length in bytes, followed by that
//! many bytes of UTF-8. There is no terminator.

use crate::cursor::{copy_to_bytes, remaining};
use crate::decoded::{realizes, Decoded};
use crate::error::MinecraftParseError;
use crate::utf8::utf8_error;
use crate::varint::{lemma_varint_len_bounds, parse_varint, spec_varint};
use vstd::prelude::*;
use vstd::utf8::{decode_utf8, encode_utf8_decode_utf8, valid_utf8};

verus! {

/// The string at the front of `bytes`: its text and the bytes that it
/// occupies, prefix included.
///
/// The prefix fails as a varint does. A negative length, or one beyond the
/// bytes that follow the prefix, gives `StringTooShort`; bytes that are not
/// UTF-8 give `InvalidStringEncoding` with the validator's error for them.
pub open spec fn spec_string_n(bytes: Seq<u8>) -> Decoded<Seq<char>> {
    match spec_varint(bytes) {
        Err(failure) => Err(failure),
        Ok((len, prefix)) => {
            let rest = bytes.skip(prefix as int);
            if len < 0 || rest.len() < len {
                Err(MinecraftParseError::StringTooShort)
            } else if !valid_utf8(rest.take(len as int)) {
                Err(MinecraftParseError::InvalidStringEncoding(utf8_error(rest.take(len as int))))
            } else {
                Ok((decode_utf8(rest.take(len as int)), prefix + len as nat))
            }
        },
    }
}

/// Decodes the string at the cursor and moves the cursor past it.
///
/// Where the declared length is negative or more than what is left, the
/// cursor stays just behind the length prefix. Where the bytes are not
/// UTF-8, they have been consumed all the same.
pub fn parse_string_n(buf: &mut &[u8]) -> (result: Result<String, MinecraftParseError>)
    ensures
        realizes(result, final(buf)@, old(buf)@, spec_string_n(old(buf)@)),
        spec_varint(old(buf)@) matches Ok((len, prefix)) ==> {
            &&& result matches Err(MinecraftParseError::StringTooShort) ==> final(buf)@ == old(
                buf,
            )@.skip(prefix as int)
            &&& result matches Err(MinecraftParseError::InvalidStringEncoding(_)) ==> final(buf)@
                == old(buf)@.skip(prefix + len)
        },
{
    let declared: i32 = parse_varint(buf)?;
    if declared < 0 {
        return Err(MinecraftParseError::StringTooShort);
    }
    let len: usize = declared as usize;
    if remaining(*buf) < len {
        return Err(MinecraftParseError::StringTooShort);
    }
    let bytes = copy_to_bytes(buf, len);
    assert(buf@ == old(buf)@.skip(old(buf)@.len() - buf@.len()));
    match core::str::from_utf8(bytes.as_slice()) {
        Ok(text) => {
            proof {
                encode_utf8_decode_utf8(text@);
            }
            Ok(text.to_owned())
        },
        Err(detail) => Err(MinecraftParseError::from(detail)),
    }
}

/// A string whose declared length is more than the bytes that follow the
/// length prefix is rejected as too short.
pub proof fn lemma_string_longer_than_buffer(bytes: Seq<u8>)
    requires
        spec_varint(bytes) matches Ok((len, prefix)) && len > bytes.len() - prefix,
    ensures
        spec_string_n(bytes) == Err::<(Seq<char>, nat), MinecraftParseError>(
            MinecraftParseError::StringTooShort,
        ),
{
    lemma_varint_len_bounds(bytes);
}

/// A string whose declared bytes are all there, but are not valid UTF-8, is
/// rejected for its encoding, with the validator's error for those bytes.
pub proof fn lemma_string_not_utf8(bytes: Seq<u8>, len: i32, prefix: nat)
    requires
        spec_varint(bytes) == Ok::<(i32, nat), MinecraftParseError>((len, prefix)),
        0 <= len <= bytes.len() - prefix,
        !valid_utf8(bytes.subrange(prefix as int, prefix + len)),
    ensures
        spec_string_n(bytes) == Err::<(Seq<char>, nat), MinecraftParseError>(
            MinecraftParseError::InvalidStringEncoding(
                utf8_error(bytes.subrange(prefix as int, prefix + len)),
            ),
        ),
{
    lemma_varint_len_bounds(bytes);
    assert(bytes.skip(prefix as int).take(len as int) == bytes.subrange(
        prefix as int,
        prefix + len,
    ));
}

} // verus!
