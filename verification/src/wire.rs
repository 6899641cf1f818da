//! Byte-level helpers shared by the frame and version codecs: little-endian
//! integer reads and writes on byte buffers, zero padding, and the lossy
//! byte-to-text conversion used for command and user-agent strings.

use vstd::prelude::*;

verus! {

use vstd::bytes::*;
use vstd::slice::slice_subrange;
use vstd::string::StringSliceAdditionalSpecFns;
use vstd::utf8::is_ascii_chars_encode_utf8;

/// A sequence of `n` zero bytes.
pub open spec fn spec_zero_bytes(n: nat) -> Seq<u8> {
    Seq::new(n, |i: int| 0u8)
}

/// Every byte of `s` is an ASCII code point.
pub open spec fn spec_all_ascii(s: Seq<u8>) -> bool {
    forall|i: int| 0 <= i < s.len() ==> s[i] < 128
}

/// The characters whose code points are the bytes of `s`, in order.
pub open spec fn spec_chars_of_bytes(s: Seq<u8>) -> Seq<char> {
    Seq::new(s.len(), |i: int| s[i] as char)
}

/// Little-endian bytes of a signed 32-bit value (two's complement).
pub open spec fn spec_i32_to_le_bytes(x: i32) -> Seq<u8> {
    spec_u32_to_le_bytes(x as u32)
}

/// The signed 32-bit value read from four little-endian bytes.
pub open spec fn spec_i32_from_le_bytes(s: Seq<u8>) -> i32
    recommends
        s.len() == 4,
{
    spec_u32_from_le_bytes(s) as i32
}

/// Little-endian bytes of a signed 64-bit value (two's complement).
pub open spec fn spec_i64_to_le_bytes(x: i64) -> Seq<u8> {
    spec_u64_to_le_bytes(x as u64)
}

/// The signed 64-bit value read from eight little-endian bytes.
pub open spec fn spec_i64_from_le_bytes(s: Seq<u8>) -> i64
    recommends
        s.len() == 8,
{
    spec_u64_from_le_bytes(s) as i64
}

pub proof fn lemma_i32_le_bytes_roundtrip(x: i32)
    ensures
        spec_i32_to_le_bytes(x).len() == 4,
        spec_i32_from_le_bytes(spec_i32_to_le_bytes(x)) == x,
{
    lemma_auto_spec_u32_to_from_le_bytes();
    assert(spec_u32_to_le_bytes(x as u32).len() == 4);
    assert(spec_u32_from_le_bytes(spec_u32_to_le_bytes(x as u32)) == x as u32);
    assert(x as u32 as i32 == x) by (bit_vector);
}

pub proof fn lemma_i64_le_bytes_roundtrip(x: i64)
    ensures
        spec_i64_to_le_bytes(x).len() == 8,
        spec_i64_from_le_bytes(spec_i64_to_le_bytes(x)) == x,
{
    lemma_auto_spec_u64_to_from_le_bytes();
    assert(spec_u64_to_le_bytes(x as u64).len() == 8);
    assert(spec_u64_from_le_bytes(spec_u64_to_le_bytes(x as u64)) == x as u64);
    assert(x as u64 as i64 == x) by (bit_vector);
}

/// For an ASCII string, the UTF-8 byte encoding carries the characters'
/// code points one byte each, so reading the bytes back as characters
/// recovers the string exactly.
pub proof fn lemma_ascii_str_roundtrip(s: &str)
    requires
        vstd::string::is_ascii(s),
    ensures
        s.spec_bytes().len() == s@.len(),
        spec_all_ascii(s.spec_bytes()),
        spec_chars_of_bytes(s.spec_bytes()) == s@,
{
    is_ascii_chars_encode_utf8(s@);
    assert forall|i: int| 0 <= i < s@.len() implies #[trigger] s.spec_bytes()[i] < 128 by {
        assert(s.spec_bytes()[i] == s@[i] as u8);
    }
    assert(spec_chars_of_bytes(s.spec_bytes()) =~= s@) by {
        assert forall|i: int| 0 <= i < s@.len() implies #[trigger] spec_chars_of_bytes(
            s.spec_bytes(),
        )[i] == s@[i] by {
            assert(s.spec_bytes()[i] == s@[i] as u8);
            assert((s@[i] as u8) as char == s@[i]);
        }
    }
}

/// Appends every byte of `bytes` to `out`, in order.
pub fn push_bytes(out: &mut Vec<u8>, bytes: &[u8])
    ensures
        final(out)@ == old(out)@ + bytes@,
{
    let n: usize = bytes.len();
    let mut i: usize = 0;
    while i < n
        invariant
            i <= n,
            n == bytes@.len(),
            out@ == old(out)@ + bytes@.subrange(0, i as int),
        decreases n - i,
    {
        out.push(bytes[i]);
        i = i + 1;
        proof {
            assert(out@ =~= old(out)@ + bytes@.subrange(0, i as int));
        }
    }
    proof {
        assert(bytes@.subrange(0, n as int) =~= bytes@);
    }
}

/// Appends `n` zero bytes to `out`.
pub fn push_zero_bytes(out: &mut Vec<u8>, n: usize)
    ensures
        final(out)@ == old(out)@ + spec_zero_bytes(n as nat),
{
    let mut i: usize = 0;
    while i < n
        invariant
            i <= n,
            out@ == old(out)@ + spec_zero_bytes(i as nat),
        decreases n - i,
    {
        out.push(0u8);
        i = i + 1;
        proof {
            assert(out@ =~= old(out)@ + spec_zero_bytes(i as nat));
        }
    }
}

/// Appends the four little-endian bytes of `x` to `out`.
pub fn push_u32_le(out: &mut Vec<u8>, x: u32)
    ensures
        final(out)@ == old(out)@ + spec_u32_to_le_bytes(x),
{
    let mut b = u32_to_le_bytes(x);
    out.append(&mut b);
}

/// Appends the eight little-endian bytes of `x` to `out`.
pub fn push_u64_le(out: &mut Vec<u8>, x: u64)
    ensures
        final(out)@ == old(out)@ + spec_u64_to_le_bytes(x),
{
    let mut b = u64_to_le_bytes(x);
    out.append(&mut b);
}

/// Appends the four little-endian bytes of a signed 32-bit value to `out`.
pub fn push_i32_le(out: &mut Vec<u8>, x: i32)
    ensures
        final(out)@ == old(out)@ + spec_i32_to_le_bytes(x),
{
    push_u32_le(out, #[verifier::truncate] (x as u32));
}

/// Appends the eight little-endian bytes of a signed 64-bit value to `out`.
pub fn push_i64_le(out: &mut Vec<u8>, x: i64)
    ensures
        final(out)@ == old(out)@ + spec_i64_to_le_bytes(x),
{
    push_u64_le(out, #[verifier::truncate] (x as u64));
}

/// Reads a little-endian `u16` at offset `off` of `b`.
pub fn read_u16_le(b: &[u8], off: usize) -> (x: u16)
    requires
        off + 2 <= b@.len(),
    ensures
        x == spec_u16_from_le_bytes(b@.subrange(off as int, off as int + 2)),
{
    // binding the length lets the verifier bound the end offset by usize
    let n: usize = b.len();
    u16_from_le_bytes(slice_subrange(b, off, off + 2))
}

/// Reads a little-endian `u32` at offset `off` of `b`.
pub fn read_u32_le(b: &[u8], off: usize) -> (x: u32)
    requires
        off + 4 <= b@.len(),
    ensures
        x == spec_u32_from_le_bytes(b@.subrange(off as int, off as int + 4)),
{
    // binding the length lets the verifier bound the end offset by usize
    let n: usize = b.len();
    u32_from_le_bytes(slice_subrange(b, off, off + 4))
}

/// Reads a little-endian `u64` at offset `off` of `b`.
pub fn read_u64_le(b: &[u8], off: usize) -> (x: u64)
    requires
        off + 8 <= b@.len(),
    ensures
        x == spec_u64_from_le_bytes(b@.subrange(off as int, off as int + 8)),
{
    // binding the length lets the verifier bound the end offset by usize
    let n: usize = b.len();
    u64_from_le_bytes(slice_subrange(b, off, off + 8))
}

/// Reads a little-endian `i32` at offset `off` of `b`.
pub fn read_i32_le(b: &[u8], off: usize) -> (x: i32)
    requires
        off + 4 <= b@.len(),
    ensures
        x == spec_i32_from_le_bytes(b@.subrange(off as int, off as int + 4)),
{
    let v = read_u32_le(b, off);
    #[verifier::truncate] (v as i32)
}

/// Reads a little-endian `i64` at offset `off` of `b`.
pub fn read_i64_le(b: &[u8], off: usize) -> (x: i64)
    requires
        off + 8 <= b@.len(),
    ensures
        x == spec_i64_from_le_bytes(b@.subrange(off as int, off as int + 8)),
{
    let v = read_u64_le(b, off);
    #[verifier::truncate] (v as i64)
}

/// Relies on String::from_utf8_lossy: bytes that are valid UTF-8 are decoded
/// verbatim, so ASCII bytes become exactly the characters with the same
/// code points. Non-UTF-8 input yields replacement characters.
#[verifier::external_body]
pub fn bytes_to_string_lossy(bytes: &[u8]) -> (r: String)
    ensures
        spec_all_ascii(bytes@) ==> r@ == spec_chars_of_bytes(bytes@),
{
    String::from_utf8_lossy(bytes).into_owned()
}

} // verus!
