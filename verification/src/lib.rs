//! Verified message framing and handshake sequencing for a Bitcoin-style
//! peer-to-peer `version`/`verack` exchange.
//!
//! The library covers the pure protocol logic: binary frame encoding and
//! validation (magic bytes, zero-padded command, little-endian length,
//! double-SHA-256 checksum), the `version` payload codec, and the strictly
//! linear handshake state machine. Transport I/O lives outside the library
//! and hands byte buffers in and out.

pub mod checksum;
pub mod constants;

pub mod error;
pub mod handshaker;
pub mod message_builder;
pub mod version;
pub mod wire;
