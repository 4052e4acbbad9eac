//! Decoder for the handshake packet of a length-prefixed, varint-framed
//! binary protocol.

mod cursor;
pub mod decoded;
pub mod error;
pub mod handshake;
pub mod string_n;
pub mod ushort;
pub mod utf8;
pub mod varint;

pub use error::MinecraftParseError;
pub use handshake::{parse_handshake, Handshake, HandshakeView};
pub use string_n::parse_string_n;
pub use ushort::parse_ushort;
pub use varint::parse_varint;
