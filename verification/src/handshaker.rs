//! The handshake orchestrator: the strictly linear `version`/`verack`
//! exchange as a state machine. Each step consumes or produces the byte
//! buffers that the transport reads and writes; the transport itself lives
//! outside the library. Any step's failure moves the machine to the terminal
//! `Failed` state, and a verack frame can only be produced after a peer
//! version message has been received and validated.

use vstd::prelude::*;

verus! {

use vstd::bytes::spec_u32_from_le_bytes;
use vstd::string::StringSliceAdditionalSpecFns;
use vstd::utf8::{is_ascii_chars, is_ascii_chars_encode_utf8};

use crate::checksum::spec_checksum;
use crate::error::Error;
use crate::message_builder::{spec_frame, BTCMessageBuilder};
use crate::version::{
    lemma_user_agent_bytes, lemma_version_payload_roundtrip, spec_user_agent_bytes,
    spec_version_fields_match, spec_version_payload, VersionMessage,
};

/// The position of a handshake in its linear exchange. Every run moves
/// forward through `Idle → Connected → VersionSent → PeerVersionReceived →
/// VerackSent → Complete`; any failure moves to the terminal `Failed`.
#[derive(Clone, Copy, Debug, PartialEq, Eq, Structural)]
pub enum HandshakeState {
    Idle,
    Connected,
    VersionSent,
    PeerVersionReceived,
    VerackSent,
    Complete,
    Failed,
}

/// Runs one handshake: builds the outbound frames and validates the inbound
/// ones, in strict order. The caller performs the transport work between
/// steps: it connects, writes the returned frames, and reads the 24-byte
/// headers and their declared payloads that the message steps consume.
pub struct Handshaker {
    /// The message builder, configured with the network magic.
    pub data_processor: BTCMessageBuilder,
    /// Where the exchange currently stands.
    pub state: HandshakeState,
}

impl Handshaker {
    /// The configured network magic of the underlying message builder.
    pub closed spec fn magic(&self) -> Seq<u8> {
        self.data_processor.magic()
    }

    /// A fresh handshake over the given message builder, not yet connected.
    pub fn init(data_processor: BTCMessageBuilder) -> (r: Handshaker)
        ensures
            r.state == HandshakeState::Idle,
            r.magic() == data_processor.magic(),
    {
        Handshaker { data_processor, state: HandshakeState::Idle }
    }

    /// Records that the transport connection was established.
    pub fn on_connected(&mut self)
        requires
            old(self).state == HandshakeState::Idle,
        ensures
            final(self).state == HandshakeState::Connected,
            final(self).magic() == old(self).magic(),
    {
        self.state = HandshakeState::Connected;
    }

    /// Records that the transport failed (connect, read or write); the
    /// handshake is abandoned whatever step it had reached.
    pub fn on_transport_failure(&mut self)
        ensures
            final(self).state == HandshakeState::Failed,
            final(self).magic() == old(self).magic(),
    {
        self.state = HandshakeState::Failed;
    }

    /// Builds the `version` frame to write to the peer: a frame carrying a
    /// freshly timestamped version payload. Fails only when the clock cannot
    /// be read, which abandons the handshake.
    pub fn send_version(&mut self) -> (r: Result<Vec<u8>, Error>)
        requires
            old(self).state == HandshakeState::Connected,
        ensures
            final(self).magic() == old(self).magic(),
            match r {
                Ok(frame) => final(self).state == HandshakeState::VersionSent && exists|ts: i64|
                    frame@ == spec_frame(
                        old(self).magic(),
                        "version".spec_bytes(),
                        spec_version_payload(ts, spec_user_agent_bytes()),
                    ),
                Err(e) => e == Error::SystemTime && final(self).state == HandshakeState::Failed,
            },
    {
        proof {
            reveal_strlit("version");
            assert(is_ascii_chars("version"@)) by {
                assert forall|i: int| 0 <= i < "version"@.len() implies '\0' <= #[trigger] "version"@[i]
                    <= '\u{7f}' by {
                    assert("version"@[0] == 'v');
                }
            }
            is_ascii_chars_encode_utf8("version"@);
            assert("version".spec_bytes().len() == 7);
        }
        match self.data_processor.version() {
            Ok(payload) => {
                proof {
                    let ts = choose|t: i64|
                        payload@ == spec_version_payload(t, spec_user_agent_bytes());
                    lemma_user_agent_bytes();
                    lemma_version_payload_roundtrip(ts, spec_user_agent_bytes());
                    assert(payload@.len() == 105);
                }
                match self.data_processor.build("version", payload.as_slice()) {
                    Ok(frame) => {
                        self.state = HandshakeState::VersionSent;
                        Ok(frame)
                    },
                    Err(_) => {
                        // provably unreachable: a seven-byte command is never
                        // too long
                        proof {
                            assert(false);
                        }
                        Err(Error::SystemTime)
                    },
                }
            },
            Err(e) => {
                self.state = HandshakeState::Failed;
                Err(e)
            },
        }
    }

    /// Validates the peer's first message against the configured magic and
    /// its checksum, and parses its payload as a version record. Any
    /// validation or parse failure abandons the handshake; in particular a
    /// foreign magic fails with `InvalidMagic` before anything else is
    /// examined, so no verack can follow it.
    pub fn on_version_message(&mut self, header: &[u8], payload: &[u8]) -> (r: Result<
        VersionMessage,
        Error,
    >)
        requires
            old(self).state == HandshakeState::VersionSent,
            header@.len() == 24,
            payload@.len() == spec_u32_from_le_bytes(header@.subrange(16, 20)),
        ensures
            final(self).magic() == old(self).magic(),
            match r {
                Ok(m) => {
                    &&& final(self).state == HandshakeState::PeerVersionReceived
                    &&& header@.subrange(0, 4) == old(self).magic()
                    &&& header@.subrange(20, 24) == spec_checksum(payload@)
                    &&& payload@.len() >= 85
                    &&& 86 + payload@[80] <= payload@.len()
                    &&& spec_version_fields_match(m, payload@)
                },
                Err(e) => {
                    &&& final(self).state == HandshakeState::Failed
                    &&& (e == Error::InvalidMagic <==> header@.subrange(0, 4) != old(self).magic())
                    &&& (e == Error::InvalidChecksum <==> header@.subrange(0, 4) == old(
                        self,
                    ).magic() && header@.subrange(20, 24) != spec_checksum(payload@))
                    &&& (e == Error::PayloadTooShort <==> header@.subrange(0, 4) == old(
                        self,
                    ).magic() && header@.subrange(20, 24) == spec_checksum(payload@)
                        && payload@.len() < 85)
                    &&& (e == Error::MalformedVersionPayload <==> header@.subrange(0, 4) == old(
                        self,
                    ).magic() && header@.subrange(20, 24) == spec_checksum(payload@)
                        && payload@.len() >= 85 && 86 + payload@[80] > payload@.len())
                    &&& (e == Error::InvalidMagic || e == Error::InvalidChecksum
                        || e == Error::PayloadTooShort || e == Error::MalformedVersionPayload)
                },
            },
    {
        match self.data_processor.decode(header, payload) {
            Err(e) => {
                self.state = HandshakeState::Failed;
                Err(e)
            },
            Ok((_command, body)) => {
                match self.data_processor.parse_message_payload(body.as_slice()) {
                    Err(e) => {
                        self.state = HandshakeState::Failed;
                        Err(e)
                    },
                    Ok(m) => {
                        self.state = HandshakeState::PeerVersionReceived;
                        Ok(m)
                    },
                }
            },
        }
    }

    /// Builds the `verack` frame acknowledging the peer's version message: a
    /// frame with an empty payload. Only a handshake whose peer version
    /// message was received and validated can produce it.
    pub fn send_verack(&mut self) -> (frame: Vec<u8>)
        requires
            old(self).state == HandshakeState::PeerVersionReceived,
        ensures
            final(self).magic() == old(self).magic(),
            final(self).state == HandshakeState::VerackSent,
            frame@ == spec_frame(old(self).magic(), "verack".spec_bytes(), Seq::<u8>::empty()),
    {
        proof {
            reveal_strlit("verack");
            assert(is_ascii_chars("verack"@)) by {
                assert forall|i: int| 0 <= i < "verack"@.len() implies '\0' <= #[trigger] "verack"@[i]
                    <= '\u{7f}' by {
                    assert("verack"@[0] == 'v');
                }
            }
            is_ascii_chars_encode_utf8("verack"@);
            assert("verack".spec_bytes().len() == 6);
        }
        match self.data_processor.verack() {
            Ok(payload) => {
                match self.data_processor.build("verack", payload.as_slice()) {
                    Ok(frame) => {
                        self.state = HandshakeState::VerackSent;
                        frame
                    },
                    Err(_) => {
                        // provably unreachable: a six-byte command is never
                        // too long
                        proof {
                            assert(false);
                        }
                        Vec::new()
                    },
                }
            },
            Err(_) => {
                // provably unreachable: building a verack payload never fails
                proof {
                    assert(false);
                }
                Vec::new()
            },
        }
    }

    /// Validates the peer's final message as a structurally sound frame; its
    /// payload is not interpreted. A valid frame completes the handshake.
    pub fn on_verack_message(&mut self, header: &[u8], payload: &[u8]) -> (r: Result<(), Error>)
        requires
            old(self).state == HandshakeState::VerackSent,
            header@.len() == 24,
            payload@.len() == spec_u32_from_le_bytes(header@.subrange(16, 20)),
        ensures
            final(self).magic() == old(self).magic(),
            match r {
                Ok(u) => {
                    &&& final(self).state == HandshakeState::Complete
                    &&& header@.subrange(0, 4) == old(self).magic()
                    &&& header@.subrange(20, 24) == spec_checksum(payload@)
                },
                Err(e) => {
                    &&& final(self).state == HandshakeState::Failed
                    &&& (e == Error::InvalidMagic <==> header@.subrange(0, 4) != old(self).magic())
                    &&& (e == Error::InvalidChecksum <==> header@.subrange(0, 4) == old(
                        self,
                    ).magic() && header@.subrange(20, 24) != spec_checksum(payload@))
                    &&& (e == Error::InvalidMagic || e == Error::InvalidChecksum)
                },
            },
    {
        match self.data_processor.decode(header, payload) {
            Err(e) => {
                self.state = HandshakeState::Failed;
                Err(e)
            },
            Ok(_) => {
                self.state = HandshakeState::Complete;
                Ok(())
            },
        }
    }
}

} // verus!
