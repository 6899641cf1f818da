//! The version codec: serializes the handshake's `version` payload and
//! parses a received `version` payload into a structured record.

use vstd::prelude::*;

verus! {

use vstd::bytes::{
    spec_u16_from_le_bytes, spec_u64_from_le_bytes, spec_u64_to_le_bytes,
    lemma_auto_spec_u32_to_from_le_bytes, lemma_auto_spec_u64_to_from_le_bytes,
};
use vstd::slice::slice_subrange;
use vstd::string::StringSliceAdditionalSpecFns;
use vstd::utf8::is_ascii_chars;

use crate::constants::{PROTOCOL_VERSION, SERVICES, START_HEIGHT, USER_AGENT};
use crate::error::Error;
use crate::message_builder::BTCMessageBuilder;
use crate::wire::{
    bytes_to_string_lossy, lemma_ascii_str_roundtrip, push_bytes, push_i32_le, push_i64_le, push_u64_le, push_zero_bytes,
    read_i32_le, read_i64_le, read_u16_le, read_u64_le, spec_all_ascii, spec_chars_of_bytes,
    spec_i32_from_le_bytes, spec_i32_to_le_bytes, spec_i64_from_le_bytes, spec_i64_to_le_bytes,
    spec_zero_bytes,
};

/// The structured contents of a `version` payload. The two IP-address fields
/// are the raw 16-byte blocks of the payload re-exposed as text; the wire's
/// binary address encoding is not interpreted.
#[derive(Debug, PartialEq, Eq)]
pub struct VersionMessage {
    pub version: i32,
    pub services: u64,
    pub timestamp: i64,
    pub addr_recv_services: u64,
    pub addr_recv_ip_address: String,
    pub addr_recv_port: u16,
    pub addr_trans_services: u64,
    pub addr_trans_ip_address: String,
    pub addr_trans_port: u16,
    pub nonce: u64,
    pub user_agent_bytes: u8,
    pub user_agent: String,
    pub start_height: i32,
    pub relay: bool,
}

/// The user agent advertised in every version payload, as bytes.
pub open spec fn spec_user_agent_bytes() -> Seq<u8> {
    USER_AGENT.spec_bytes()
}

pub proof fn lemma_user_agent_bytes()
    ensures
        spec_user_agent_bytes().len() == 19,
        spec_all_ascii(spec_user_agent_bytes()),
        spec_chars_of_bytes(spec_user_agent_bytes()) == USER_AGENT@,
{
    reveal_strlit("/Bitcoin_Handshake/");
    let s = USER_AGENT@;
    assert(s.len() == 19);
    assert(is_ascii_chars(s)) by {
        assert forall|i: int| 0 <= i < s.len() implies '\0' <= #[trigger] s[i] <= '\u{7f}' by {
            assert(s[0] == '/');
        }
    }
    lemma_ascii_str_roundtrip(USER_AGENT);
}

/// The fixed-layout version payload for a timestamp and user agent: protocol
/// version, services and timestamp (little-endian), two zeroed 26-byte
/// address blocks, a zeroed 8-byte nonce block, the length-prefixed user
/// agent, the start height, and a relay flag of one.
pub open spec fn spec_version_payload(timestamp: i64, user_agent: Seq<u8>) -> Seq<u8>
    recommends
        user_agent.len() <= 255,
{
    spec_i32_to_le_bytes(PROTOCOL_VERSION) + spec_u64_to_le_bytes(SERVICES)
        + spec_i64_to_le_bytes(timestamp) + spec_zero_bytes(26) + spec_zero_bytes(26)
        + spec_zero_bytes(8) + seq![user_agent.len() as u8] + user_agent
        + spec_i32_to_le_bytes(START_HEIGHT) + seq![1u8]
}

/// The record `m` holds exactly the fields laid out in `payload`: each fixed
/// field read little-endian at its offset, and each text field the lossy
/// decoding of its byte range (pinned down when those bytes are ASCII).
pub open spec fn spec_version_fields_match(m: VersionMessage, payload: Seq<u8>) -> bool
    recommends
        payload.len() >= 86 + payload[80],
{
    let ua_len = payload[80] as int;
    &&& m.version == spec_i32_from_le_bytes(payload.subrange(0, 4))
    &&& m.services == spec_u64_from_le_bytes(payload.subrange(4, 12))
    &&& m.timestamp == spec_i64_from_le_bytes(payload.subrange(12, 20))
    &&& m.addr_recv_services == spec_u64_from_le_bytes(payload.subrange(20, 28))
    &&& spec_all_ascii(payload.subrange(28, 44)) ==> m.addr_recv_ip_address@
        == spec_chars_of_bytes(payload.subrange(28, 44))
    &&& m.addr_recv_port == spec_u16_from_le_bytes(payload.subrange(44, 46))
    &&& m.addr_trans_services == spec_u64_from_le_bytes(payload.subrange(46, 54))
    &&& spec_all_ascii(payload.subrange(54, 70)) ==> m.addr_trans_ip_address@
        == spec_chars_of_bytes(payload.subrange(54, 70))
    &&& m.addr_trans_port == spec_u16_from_le_bytes(payload.subrange(70, 72))
    &&& m.nonce == spec_u64_from_le_bytes(payload.subrange(72, 80))
    &&& m.user_agent_bytes == payload[80]
    &&& spec_all_ascii(payload.subrange(81, 81 + ua_len)) ==> m.user_agent@
        == spec_chars_of_bytes(payload.subrange(81, 81 + ua_len))
    &&& m.start_height == spec_i32_from_le_bytes(payload.subrange(81 + ua_len, 85 + ua_len))
    &&& m.relay == (payload[85 + ua_len] != 0)
}

/// Relies on std::time::SystemTime::now and duration_since(UNIX_EPOCH): the
/// number of whole seconds since the Unix epoch, or `None` when the clock
/// reads earlier than the epoch. The value depends on the wall clock, so
/// nothing is assumed about it.
#[verifier::external_body]
fn now_unix_seconds() -> Option<u64> {
    match std::time::SystemTime::now().duration_since(std::time::UNIX_EPOCH) {
        Ok(d) => Some(d.as_secs()),
        Err(_) => None,
    }
}

impl BTCMessageBuilder {
    /// Builds the version payload for the given timestamp.
    pub fn version_with_timestamp(&self, timestamp: i64) -> (payload: Vec<u8>)
        ensures
            payload@ == spec_version_payload(timestamp, spec_user_agent_bytes()),
    {
        proof {
            lemma_user_agent_bytes();
        }
        let mut payload: Vec<u8> = Vec::new();
        push_i32_le(&mut payload, PROTOCOL_VERSION);
        push_u64_le(&mut payload, SERVICES);
        push_i64_le(&mut payload, timestamp);
        push_zero_bytes(&mut payload, 26);
        push_zero_bytes(&mut payload, 26);
        push_zero_bytes(&mut payload, 8);
        let ua: &[u8] = USER_AGENT.as_bytes();
        payload.push(ua.len() as u8);
        push_bytes(&mut payload, ua);
        push_i32_le(&mut payload, START_HEIGHT);
        payload.push(1u8);
        proof {
            assert(payload@ =~= spec_version_payload(timestamp, spec_user_agent_bytes()));
        }
        payload
    }

    /// Builds the version payload, timestamped with the current wall clock.
    /// Fails only when the clock cannot be read.
    pub fn version(&self) -> (r: Result<Vec<u8>, Error>)
        ensures
            match r {
                Ok(payload) => exists|ts: i64|
                    payload@ == spec_version_payload(ts, spec_user_agent_bytes()),
                Err(e) => e == Error::SystemTime,
            },
    {
        match now_unix_seconds() {
            Some(secs) => {
                let ts: i64 = #[verifier::truncate] (secs as i64);
                let payload = self.version_with_timestamp(ts);
                proof {
                    assert(payload@ == spec_version_payload(ts, spec_user_agent_bytes()));
                }
                Ok(payload)
            },
            None => Err(Error::SystemTime),
        }
    }

    /// Builds the verack payload, which is always empty.
    pub fn verack(&self) -> (r: Result<Vec<u8>, Error>)
        ensures
            match r {
                Ok(payload) => payload@ == Seq::<u8>::empty(),
                Err(e) => false,
            },
    {
        Ok(Vec::new())
    }

    /// Parses a `version` payload into its structured record. Fails with
    /// `PayloadTooShort` exactly when the payload is under 85 bytes, and with
    /// `MalformedVersionPayload` exactly when the declared user-agent length
    /// leaves no room for the start height and relay flag.
    pub fn parse_message_payload(&self, payload: &[u8]) -> (r: Result<VersionMessage, Error>)
        ensures
            match r {
                Ok(m) => {
                    &&& payload@.len() >= 85
                    &&& 86 + payload@[80] <= payload@.len()
                    &&& spec_version_fields_match(m, payload@)
                },
                Err(e) => {
                    &&& (e == Error::PayloadTooShort <==> payload@.len() < 85)
                    &&& (e == Error::MalformedVersionPayload <==> payload@.len() >= 85 && 86
                        + payload@[80] > payload@.len())
                    &&& (e == Error::PayloadTooShort || e == Error::MalformedVersionPayload)
                },
            },
    {
        let n: usize = payload.len();
        if n < 85 {
            return Err(Error::PayloadTooShort);
        }
        let ua_len: usize = payload[80] as usize;
        if 86 + ua_len > n {
            return Err(Error::MalformedVersionPayload);
        }

        let version = read_i32_le(payload, 0);
        let services = read_u64_le(payload, 4);
        let timestamp = read_i64_le(payload, 12);
        let addr_recv_services = read_u64_le(payload, 20);
        let addr_recv_ip_address = bytes_to_string_lossy(slice_subrange(payload, 28, 44));
        let addr_recv_port = read_u16_le(payload, 44);
        let addr_trans_services = read_u64_le(payload, 46);
        let addr_trans_ip_address = bytes_to_string_lossy(slice_subrange(payload, 54, 70));
        let addr_trans_port = read_u16_le(payload, 70);
        let nonce = read_u64_le(payload, 72);
        let user_agent_bytes: u8 = payload[80];
        let user_agent = bytes_to_string_lossy(slice_subrange(payload, 81, 81 + ua_len));
        let start_height = read_i32_le(payload, 81 + ua_len);
        let relay: bool = payload[85 + ua_len] != 0;

        Ok(
            VersionMessage {
                version,
                services,
                timestamp,
                addr_recv_services,
                addr_recv_ip_address,
                addr_recv_port,
                addr_trans_services,
                addr_trans_ip_address,
                addr_trans_port,
                nonce,
                user_agent_bytes,
                user_agent,
                start_height,
                relay,
            },
        )
    }
}

/// Round-trip law for the version codec: a serialized version payload parses
/// back to the protocol version, services, timestamp, user agent, start
/// height and relay flag that were written. Stated over the payload bytes:
/// each field's byte range of `spec_version_payload` reads back as the value
/// supplied, so a parsed record that matches the payload holds those values.
pub proof fn lemma_version_payload_roundtrip(timestamp: i64, user_agent: Seq<u8>)
    requires
        user_agent.len() <= 255,
    ensures
        ({
            let p = spec_version_payload(timestamp, user_agent);
            let ua_len = user_agent.len() as int;
            &&& p.len() == 86 + ua_len
            &&& p[80] == user_agent.len() as u8
            &&& spec_i32_from_le_bytes(p.subrange(0, 4)) == PROTOCOL_VERSION
            &&& spec_u64_from_le_bytes(p.subrange(4, 12)) == SERVICES
            &&& spec_i64_from_le_bytes(p.subrange(12, 20)) == timestamp
            &&& p.subrange(81, 81 + ua_len) == user_agent
            &&& spec_i32_from_le_bytes(p.subrange(81 + ua_len, 85 + ua_len)) == START_HEIGHT
            &&& p[85 + ua_len] == 1
        }),
{
    lemma_auto_spec_u32_to_from_le_bytes();
    lemma_auto_spec_u64_to_from_le_bytes();
    crate::wire::lemma_i32_le_bytes_roundtrip(PROTOCOL_VERSION);
    crate::wire::lemma_i32_le_bytes_roundtrip(START_HEIGHT);
    crate::wire::lemma_i64_le_bytes_roundtrip(timestamp);
    let p = spec_version_payload(timestamp, user_agent);
    let ua_len = user_agent.len() as int;
    assert(p.subrange(0, 4) =~= spec_i32_to_le_bytes(PROTOCOL_VERSION));
    assert(p.subrange(4, 12) =~= spec_u64_to_le_bytes(SERVICES));
    assert(p.subrange(12, 20) =~= spec_i64_to_le_bytes(timestamp));
    assert(p.subrange(81, 81 + ua_len) =~= user_agent);
    assert(p.subrange(81 + ua_len, 85 + ua_len) =~= spec_i32_to_le_bytes(START_HEIGHT));
    assert(p[85 + ua_len] == 1);
}

} // verus!
