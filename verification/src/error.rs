//! The library's error type. Every failure of the framing layer, the
//! version codec or the handshake sequencing is one of these variants.

use vstd::prelude::*;

verus! {

/// A fatal protocol or environment failure. The handshake never retries:
/// each of these aborts the exchange.
#[derive(Clone, Copy, Debug, PartialEq, Eq, Structural)]
pub enum Error {
    /// The transport reported a connection, read or write failure.
    Transport,
    /// An inbound header's first four bytes differ from the configured
    /// network magic.
    InvalidMagic,
    /// The recomputed payload checksum differs from the one in the header.
    InvalidChecksum,
    /// A command string longer than twelve bytes was given to the encoder.
    CommandTooLong,
    /// A version payload shorter than the minimum of 85 bytes.
    PayloadTooShort,
    /// A version payload at least 85 bytes long whose declared user-agent
    /// length overruns the buffer.
    MalformedVersionPayload,
    /// The wall clock could not be read while building a version payload.
    SystemTime,
}

} // verus!
