//! The handshake packet.
//!
//! On the wire a handshake is a varint giving the number of bytes that
//! follow it, then the packet ID as a varint, the protocol version as a
//! varint, the server address as a length-prefixed string, the server port
//! as a big-endian 16-bit number and the next state as a varint.

use crate::cursor::remaining;
use crate::decoded::{realizes, Decoded};
use crate::error::MinecraftParseError;
use crate::string_n::{parse_string_n, spec_string_n};
use crate::ushort::{parse_ushort, spec_ushort};
use crate::varint::{lemma_varint_needs_a_byte, parse_varint, spec_varint};
use vstd::prelude::*;

verus! {

/// The packet ID of a handshake.
pub const HANDSHAKE_PACKET_ID: i32 = 0x00;

/// A decoded handshake. The fields hold what the wire said: neither the
/// protocol version nor the next state is checked against known values.
#[derive(Debug, PartialEq)]
pub struct Handshake {
    pub protocol_version: i32,
    pub address: String,
    pub port: u16,
    pub next_state: i32,
}

/// A handshake as a mathematical value.
pub struct HandshakeView {
    pub protocol_version: i32,
    pub address: Seq<char>,
    pub port: u16,
    pub next_state: i32,
}

impl View for Handshake {
    type V = HandshakeView;

    open spec fn view(&self) -> HandshakeView {
        HandshakeView {
            protocol_version: self.protocol_version,
            address: self.address@,
            port: self.port,
            next_state: self.next_state,
        }
    }
}

/// The four fields of a handshake, read one after the other from the front
/// of `bytes`. The first field that fails decides the failure.
pub open spec fn spec_fields(bytes: Seq<u8>) -> Decoded<HandshakeView> {
    match spec_varint(bytes) {
        Err(failure) => Err(failure),
        Ok((protocol_version, n1)) => match spec_string_n(bytes.skip(n1 as int)) {
            Err(failure) => Err(failure),
            Ok((address, n2)) => match spec_ushort(bytes.skip((n1 + n2) as int)) {
                Err(failure) => Err(failure),
                Ok((port, n3)) => match spec_varint(bytes.skip((n1 + n2 + n3) as int)) {
                    Err(failure) => Err(failure),
                    Ok((next_state, n4)) => Ok(
                        (
                            HandshakeView { protocol_version, address, port, next_state },
                            n1 + n2 + n3 + n4,
                        ),
                    ),
                },
            },
        },
    }
}

/// What follows the outer length: the packet ID, which must be the
/// handshake's, and then the fields.
pub open spec fn spec_body(bytes: Seq<u8>) -> Decoded<HandshakeView> {
    match spec_varint(bytes) {
        Err(failure) => Err(failure),
        Ok((id, n)) => if id != HANDSHAKE_PACKET_ID {
            Err(MinecraftParseError::NotHandshake)
        } else {
            match spec_fields(bytes.skip(n as int)) {
                Err(failure) => Err(failure),
                Ok((handshake, taken)) => Ok((handshake, n + taken)),
            }
        },
    }
}

/// The handshake packet at the front of `bytes`, which must also be all of
/// `bytes`: the outer length has to equal the number of bytes behind it, no
/// more and no fewer.
pub open spec fn spec_handshake(bytes: Seq<u8>) -> Decoded<HandshakeView> {
    match spec_varint(bytes) {
        Err(failure) => Err(failure),
        Ok((len, n)) => if bytes.len() - n != len {
            Err(MinecraftParseError::LengthNotMatch)
        } else {
            match spec_body(bytes.skip(n as int)) {
                Err(failure) => Err(failure),
                Ok((handshake, taken)) => Ok((handshake, n + taken)),
            }
        },
    }
}

/// Decodes the handshake packet at the cursor.
///
/// The steps are taken in order and the first failure ends the parse with
/// its error. On success the cursor stands behind the next-state field.
pub fn parse_handshake(buf: &mut &[u8]) -> (result: Result<Handshake, MinecraftParseError>)
    ensures
        realizes(result, final(buf)@, old(buf)@, spec_handshake(old(buf)@)),
{
    let ghost packet = buf@;
    let len: i32 = parse_varint(buf)?;
    if len < 0 || remaining(*buf) != len as usize {
        return Err(MinecraftParseError::LengthNotMatch);
    }
    let ghost body = buf@;

    let id: i32 = parse_varint(buf)?;
    if id != HANDSHAKE_PACKET_ID {
        return Err(MinecraftParseError::NotHandshake);
    }
    let ghost fields = buf@;

    let version: i32 = parse_varint(buf)?;
    let address = parse_string_n(buf)?;
    assert(buf@ == fields.skip(fields.len() - buf@.len()));
    let port: u16 = parse_ushort(buf)?;
    assert(buf@ == fields.skip(fields.len() - buf@.len()));
    let next_state: i32 = parse_varint(buf)?;

    let handshake = Handshake { protocol_version: version, address, port, next_state };

    assert(buf@ == fields.skip(fields.len() - buf@.len()));
    assert(buf@ == body.skip(body.len() - buf@.len()));
    assert(buf@ == packet.skip(packet.len() - buf@.len()));
    Ok(handshake)
}

/// An empty buffer fails at the very first step, the outer length, and so
/// with `InvalidVarInt`.
pub proof fn lemma_handshake_of_nothing(bytes: Seq<u8>)
    requires
        bytes.len() == 0,
    ensures
        spec_handshake(bytes) == Err::<(HandshakeView, nat), MinecraftParseError>(
            MinecraftParseError::InvalidVarInt,
        ),
{
    lemma_varint_needs_a_byte(bytes);
}

/// A packet whose outer length is not the number of bytes behind it fails
/// with `LengthNotMatch`, whatever those bytes hold.
pub proof fn lemma_handshake_length_mismatch(bytes: Seq<u8>)
    requires
        spec_varint(bytes) matches Ok((len, n)) && len != bytes.len() - n,
    ensures
        spec_handshake(bytes) == Err::<(HandshakeView, nat), MinecraftParseError>(
            MinecraftParseError::LengthNotMatch,
        ),
{
}

} // verus!
