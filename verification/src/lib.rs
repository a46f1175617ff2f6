//! A native-boundary request dispatcher: decodes a wire-format request
//! envelope from raw bytes, routes it to a typed handler, and encodes the
//! response envelope back to bytes, converting every failure into a
//! well-formed error response.

pub mod messages;
pub mod varint;
pub mod wire;
pub mod text;
pub mod encode;
pub mod decode;
pub mod roundtrip;
pub mod handlers;
pub mod dispatch;
