//! The message framer: encodes a `(command, payload)` pair into a wire frame
//! (magic, zero-padded command, little-endian length, checksum, payload) and
//! decodes and validates an inbound frame.

use vstd::prelude::*;

verus! {

use vstd::bytes::{spec_u32_from_le_bytes, spec_u32_to_le_bytes, lemma_auto_spec_u32_to_from_le_bytes};
use vstd::slice::{slice_subrange, slice_to_vec};
use vstd::string::StringSliceAdditionalSpecFns;

use crate::checksum::{payload_checksum, spec_checksum};
use crate::constants::REGTEST_CHAIN_MAGIC_BYTES;
use crate::error::Error;
use crate::wire::{
    push_bytes, push_u32_le, push_zero_bytes, read_u32_le, spec_all_ascii, spec_chars_of_bytes,
    spec_zero_bytes, bytes_to_string_lossy,
};

/// A command, padded with zero bytes to the fixed 12-byte header field.
pub open spec fn spec_pad_command(cmd: Seq<u8>) -> Seq<u8>
    recommends
        cmd.len() <= 12,
{
    cmd + spec_zero_bytes((12 - cmd.len()) as nat)
}

/// `s` with every trailing zero byte removed.
pub open spec fn spec_trim_trailing_zeros(s: Seq<u8>) -> Seq<u8>
    decreases s.len(),
{
    if s.len() > 0 && s.last() == 0u8 {
        spec_trim_trailing_zeros(s.drop_last())
    } else {
        s
    }
}

/// The full wire frame for a command and payload under a network magic:
/// 4 magic bytes, 12 command bytes, a 4-byte little-endian payload length,
/// the 4-byte payload checksum, then the payload itself.
pub open spec fn spec_frame(magic: Seq<u8>, cmd: Seq<u8>, payload: Seq<u8>) -> Seq<u8>
    recommends
        magic.len() == 4,
        cmd.len() <= 12,
        payload.len() <= u32::MAX,
{
    magic + spec_pad_command(cmd) + spec_u32_to_le_bytes(payload.len() as u32)
        + spec_checksum(payload) + payload
}

/// Trimming the zero padding off a padded command recovers the command,
/// provided the command itself does not end in a zero byte.
pub proof fn lemma_trim_pad(cmd: Seq<u8>, n: nat)
    requires
        cmd.len() > 0 ==> cmd.last() != 0,
    ensures
        spec_trim_trailing_zeros(cmd + spec_zero_bytes(n)) == cmd,
    decreases n,
{
    if n == 0 {
        assert(cmd + spec_zero_bytes(0) =~= cmd);
    } else {
        let s = cmd + spec_zero_bytes(n);
        assert(s.last() == 0);
        assert(s.drop_last() =~= cmd + spec_zero_bytes((n - 1) as nat));
        lemma_trim_pad(cmd, (n - 1) as nat);
    }
}

/// Round-trip law for the framer: a frame built from a command and a payload
/// splits back into exactly the parts that `decode` validates and returns.
/// Its first four bytes are the magic, its command field trims back to the
/// command, its length field reads back as the payload length, its checksum
/// field is the payload's checksum, and the rest is the payload itself; so a
/// frame encoded and decoded under one magic yields the original command and
/// payload.
pub proof fn lemma_frame_roundtrip(magic: Seq<u8>, cmd: Seq<u8>, payload: Seq<u8>)
    requires
        magic.len() == 4,
        cmd.len() <= 12,
        cmd.len() > 0 ==> cmd.last() != 0,
        payload.len() <= u32::MAX,
    ensures
        ({
            let frame = spec_frame(magic, cmd, payload);
            &&& frame.len() == 24 + payload.len()
            &&& frame.subrange(0, 4) == magic
            &&& spec_trim_trailing_zeros(frame.subrange(4, 16)) == cmd
            &&& spec_u32_from_le_bytes(frame.subrange(16, 20)) == payload.len()
            &&& frame.subrange(20, 24) == spec_checksum(payload)
            &&& frame.subrange(24, frame.len() as int) == payload
        }),
{
    lemma_auto_spec_u32_to_from_le_bytes();
    lemma_trim_pad(cmd, (12 - cmd.len()) as nat);
    let frame = spec_frame(magic, cmd, payload);
    assert(frame.subrange(0, 4) =~= magic);
    assert(frame.subrange(4, 16) =~= spec_pad_command(cmd));
    assert(frame.subrange(16, 20) =~= spec_u32_to_le_bytes(payload.len() as u32));
    assert(frame.subrange(20, 24) =~= spec_checksum(payload));
    assert(frame.subrange(24, frame.len() as int) =~= payload);
}

/// The message factory for one configured network: builds outbound frames
/// and validates inbound ones against its magic bytes.
pub struct BTCMessageBuilder {
    magic_bytes: [u8; 4],
}

impl Default for BTCMessageBuilder {
    /// A builder configured for the regtest network.
    fn default() -> (r: Self)
        ensures
            r.magic() == REGTEST_CHAIN_MAGIC_BYTES@,
    {
        Self { magic_bytes: REGTEST_CHAIN_MAGIC_BYTES }
    }
}

impl BTCMessageBuilder {
    /// The configured network magic, as a 4-byte sequence.
    pub closed spec fn magic(&self) -> Seq<u8> {
        self.magic_bytes@
    }

    /// The configured magic is always four bytes.
    pub proof fn lemma_magic_len(&self)
        ensures
            self.magic().len() == 4,
    {
    }

    /// Reconfigures the builder for the network identified by `magic_bytes`.
    pub fn set_magic_bytes(&mut self, magic_bytes: [u8; 4])
        ensures
            final(self).magic() == magic_bytes@,
    {
        self.magic_bytes = magic_bytes;
    }

    /// Encodes `(command, payload)` as a wire frame. Fails exactly when the
    /// command is longer than twelve bytes.
    pub fn build(&self, command: &str, payload: &[u8]) -> (r: Result<Vec<u8>, Error>)
        requires
            payload@.len() <= u32::MAX,
        ensures
            match r {
                Ok(frame) => command.spec_bytes().len() <= 12 && frame@ == spec_frame(
                    self.magic(),
                    command.spec_bytes(),
                    payload@,
                ),
                Err(e) => e == Error::CommandTooLong && command.spec_bytes().len() > 12,
            },
    {
        let cmd_bytes: &[u8] = command.as_bytes();
        if cmd_bytes.len() > 12 {
            return Err(Error::CommandTooLong);
        }
        let mut message: Vec<u8> = Vec::new();
        push_bytes(&mut message, self.magic_bytes.as_slice());
        push_bytes(&mut message, cmd_bytes);
        push_zero_bytes(&mut message, 12 - cmd_bytes.len());
        push_u32_le(&mut message, payload.len() as u32);
        let ck = payload_checksum(payload);
        push_bytes(&mut message, ck.as_slice());
        push_bytes(&mut message, payload);
        proof {
            lemma_auto_spec_u32_to_from_le_bytes();
            assert(message@ =~= spec_frame(self.magic(), command.spec_bytes(), payload@));
        }
        Ok(message)
    }

    /// The payload length declared in a 24-byte frame header; the caller must
    /// read exactly this many payload bytes before validating the frame.
    pub fn declared_payload_len(header: &[u8]) -> (n: u32)
        requires
            header@.len() == 24,
        ensures
            n == spec_u32_from_le_bytes(header@.subrange(16, 20)),
    {
        read_u32_le(header, 16)
    }

    /// Validates a 24-byte header and its payload and recovers the command
    /// and payload. Rejects a foreign network magic before anything else,
    /// then a checksum that does not match the payload. The command bytes
    /// are the header's command field with trailing zero bytes stripped.
    pub fn decode(&self, header: &[u8], payload: &[u8]) -> (r: Result<(String, Vec<u8>), Error>)
        requires
            header@.len() == 24,
            payload@.len() == spec_u32_from_le_bytes(header@.subrange(16, 20)),
        ensures
            match r {
                Ok(cp) => {
                    &&& header@.subrange(0, 4) == self.magic()
                    &&& header@.subrange(20, 24) == spec_checksum(payload@)
                    &&& cp.1@ == payload@
                    &&& spec_all_ascii(spec_trim_trailing_zeros(header@.subrange(4, 16)))
                        ==> cp.0@ == spec_chars_of_bytes(
                        spec_trim_trailing_zeros(header@.subrange(4, 16)),
                    )
                },
                Err(e) => {
                    &&& (e == Error::InvalidMagic <==> header@.subrange(0, 4) != self.magic())
                    &&& (e == Error::InvalidChecksum <==> header@.subrange(0, 4) == self.magic()
                        && header@.subrange(20, 24) != spec_checksum(payload@))
                    &&& (e == Error::InvalidMagic || e == Error::InvalidChecksum)
                },
            },
    {
        let magic_ok = header[0] == self.magic_bytes[0] && header[1] == self.magic_bytes[1]
            && header[2] == self.magic_bytes[2] && header[3] == self.magic_bytes[3];
        if !magic_ok {
            proof {
                assert(header@.subrange(0, 4) != self.magic()) by {
                    if header@.subrange(0, 4) == self.magic() {
                        assert(header@.subrange(0, 4)[0] == self.magic_bytes@[0]);
                        assert(header@.subrange(0, 4)[1] == self.magic_bytes@[1]);
                        assert(header@.subrange(0, 4)[2] == self.magic_bytes@[2]);
                        assert(header@.subrange(0, 4)[3] == self.magic_bytes@[3]);
                    }
                }
            }
            return Err(Error::InvalidMagic);
        }
        proof {
            assert(header@.subrange(0, 4) =~= self.magic());
        }

        let mut end: usize = 16;
        while end > 4 && header[end - 1] == 0
            invariant
                4 <= end <= 16,
                header@.len() == 24,
                spec_trim_trailing_zeros(header@.subrange(4, 16)) == spec_trim_trailing_zeros(
                    header@.subrange(4, end as int),
                ),
            decreases end,
        {
            proof {
                assert(header@.subrange(4, end as int).last() == header@[end - 1]);
                assert(header@.subrange(4, end as int).drop_last() =~= header@.subrange(
                    4,
                    end - 1,
                ));
            }
            end = end - 1;
        }
        proof {
            assert(spec_trim_trailing_zeros(header@.subrange(4, end as int)) == header@.subrange(
                4,
                end as int,
            ));
        }
        let command = bytes_to_string_lossy(slice_subrange(header, 4, end));

        let ck = payload_checksum(payload);
        let checksum_ok = ck[0] == header[20] && ck[1] == header[21] && ck[2] == header[22]
            && ck[3] == header[23];
        if !checksum_ok {
            proof {
                assert(header@.subrange(20, 24) != spec_checksum(payload@)) by {
                    if header@.subrange(20, 24) == spec_checksum(payload@) {
                        assert(header@.subrange(20, 24)[0] == ck@[0]);
                        assert(header@.subrange(20, 24)[1] == ck@[1]);
                        assert(header@.subrange(20, 24)[2] == ck@[2]);
                        assert(header@.subrange(20, 24)[3] == ck@[3]);
                    }
                }
            }
            return Err(Error::InvalidChecksum);
        }
        proof {
            assert(header@.subrange(20, 24) =~= ck@);
        }
        Ok((command, slice_to_vec(payload)))
    }
}

} // verus!
