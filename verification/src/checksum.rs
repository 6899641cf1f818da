//! The frame checksum: the first four bytes of the double SHA-256 digest of
//! the payload. The digest itself is computed by an outside crate; the
//! library names its result and reasons about the four checksum bytes.

use vstd::prelude::*;

verus! {

/// The first four bytes of SHA-256(SHA-256(payload)). The digest is a pure
/// function of the payload bytes; its value is not modelled here.
pub uninterp spec fn double_sha256_first4(payload: Seq<u8>) -> (u8, u8, u8, u8);

/// The 4-byte checksum carried in a frame header, as a byte sequence.
pub open spec fn spec_checksum(payload: Seq<u8>) -> Seq<u8> {
    let t = double_sha256_first4(payload);
    seq![t.0, t.1, t.2, t.3]
}

/// Relies on bitcoin_hashes::sha256::Hash::hash: the 32-byte digest depends
/// on the input bytes alone. Hashes the payload twice and keeps the first
/// four bytes of the second digest.
#[verifier::external_body]
pub fn payload_checksum(payload: &[u8]) -> (r: [u8; 4])
    ensures
        (r@[0], r@[1], r@[2], r@[3]) == double_sha256_first4(payload@),
        r@ == spec_checksum(payload@),
{
    let first = bitcoin_hashes::sha256::Hash::hash(payload);
    let second = bitcoin_hashes::sha256::Hash::hash(first.as_byte_array());
    let d = second.as_byte_array();
    [d[0], d[1], d[2], d[3]]
}

} // verus!
