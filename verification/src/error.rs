//! The ways in which decoding can fail.

use core::str::Utf8Error;
use vstd::prelude::*;
use vstd::std_specs::convert::FromSpecImpl;

verus! {

/// A decoding failure. Every failure is fatal to the parse that met it.
///
/// `InvalidVarInt`, `InvalidUShort` and `StringTooShort` mean that the buffer
/// ended too early; the other three mean that the bytes are structurally
/// wrong.
#[derive(Debug, PartialEq)]
pub enum MinecraftParseError {
    /// A varint ran out of bytes, or still signalled continuation in its
    /// fifth byte.
    InvalidVarInt,
    /// Fewer than two bytes remained for a 16-bit field.
    InvalidUShort,
    /// A string declared more bytes than remained.
    StringTooShort,
    /// The bytes of a string were not valid UTF-8; holds the validator's
    /// account of where they went wrong.
    InvalidStringEncoding(Utf8Error),
    /// The outer length differed from the number of bytes that followed it.
    LengthNotMatch,
    /// The packet ID was not the handshake's.
    NotHandshake,
}

impl From<Utf8Error> for MinecraftParseError {
    fn from(detail: Utf8Error) -> (error: MinecraftParseError) {
        MinecraftParseError::InvalidStringEncoding(detail)
    }
}

impl FromSpecImpl<Utf8Error> for MinecraftParseError {
    open spec fn obeys_from_spec() -> bool {
        true
    }

    open spec fn from_spec(detail: Utf8Error) -> MinecraftParseError {
        MinecraftParseError::InvalidStringEncoding(detail)
    }
}

} // verus!
