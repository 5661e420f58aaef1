//! Sample codec: complex samples and their two wire formats.
//!
//! A wire chunk is a byte stream of interleaved IQ pairs. The fixed-point
//! format stores each component as a little-endian signed 16-bit integer
//! (4 bytes per sample); the floating-point format stores each component as
//! the little-endian bit pattern of a 32-bit value (8 bytes per sample).
//! This module keeps samples in their exact wire representation — `i16`
//! components for fixed point, `u32` bit patterns for floating point — so
//! that decoding and encoding are bit-exact inverses, which is proved below.

use vstd::prelude::*;

verus! {

/// A complex number in Cartesian form: one IQ sample, with the in-phase
/// component in `re` and the quadrature component in `im`.
#[derive(Clone, Copy, Debug, PartialEq, Eq)]
pub struct Complex<T> {
    /// The real (in-phase) part.
    pub re: T,
    /// The imaginary (quadrature) part.
    pub im: T,
}

impl<T> Complex<T> {
    /// Create a new complex number.
    pub fn new(re: T, im: T) -> (c: Complex<T>)
        ensures
            c.re == re,
            c.im == im,
    {
        Complex { re, im }
    }
}

/// A chunk whose byte count is not a whole number of samples. The pipeline
/// cannot recover meaning from a misaligned chunk, so it is rejected rather
/// than silently padded or truncated.
#[derive(Clone, Copy, Debug, PartialEq, Eq)]
pub struct MalformedChunk;

/// The unsigned 16-bit value stored little-endian as `b0`, `b1`.
pub open spec fn le16(b0: u8, b1: u8) -> u16 {
    (b0 as u16) | ((b1 as u16) << 8)
}

/// The unsigned 32-bit value stored little-endian as `b0` .. `b3`.
pub open spec fn le32(b0: u8, b1: u8, b2: u8, b3: u8) -> u32 {
    (b0 as u32) | ((b1 as u32) << 8) | ((b2 as u32) << 16) | ((b3 as u32) << 24)
}

/// Sample `k` of a fixed-point wire chunk: two little-endian `i16`s, I then Q.
pub open spec fn i16_sample_at(bytes: Seq<u8>, k: int) -> Complex<i16> {
    Complex {
        re: le16(bytes[4 * k], bytes[4 * k + 1]) as i16,
        im: le16(bytes[4 * k + 2], bytes[4 * k + 3]) as i16,
    }
}

/// The sample sequence held by a fixed-point wire chunk.
pub open spec fn decode_i16_spec(bytes: Seq<u8>) -> Seq<Complex<i16>> {
    Seq::new(bytes.len() / 4, |k: int| i16_sample_at(bytes, k))
}

/// Byte `r` (0..4) of the fixed-point wire form of sample `s`.
pub open spec fn i16_sample_byte(s: Complex<i16>, r: int) -> u8 {
    if r == 0 {
        (s.re as u16 & 0xff) as u8
    } else if r == 1 {
        ((s.re as u16 >> 8) & 0xff) as u8
    } else if r == 2 {
        (s.im as u16 & 0xff) as u8
    } else {
        ((s.im as u16 >> 8) & 0xff) as u8
    }
}

/// The fixed-point wire form of a sample sequence.
pub open spec fn encode_i16_spec(samples: Seq<Complex<i16>>) -> Seq<u8> {
    Seq::new(4 * samples.len(), |j: int| i16_sample_byte(samples[j / 4], j % 4))
}

/// Decode a fixed-point wire chunk into samples with `i16` components.
///
/// Fails exactly when the byte count is not a multiple of 4.
pub fn convert_iqi16_to_complex(inbuf: &[u8]) -> (r: Result<Vec<Complex<i16>>, MalformedChunk>)
    ensures
        r is Ok <==> inbuf@.len() % 4 == 0,
        r matches Ok(v) ==> v@ == decode_i16_spec(inbuf@),
{
    if inbuf.len() % 4 != 0 {
        return Err(MalformedChunk);
    }
    let len = inbuf.len();
    let n = len / 4;
    let mut out: Vec<Complex<i16>> = Vec::new();
    let mut k: usize = 0;
    while k < n
        invariant
            len == inbuf@.len(),
            inbuf@.len() % 4 == 0,
            n == inbuf@.len() / 4,
            k <= n,
            out@.len() == k,
            forall|m: int| 0 <= m < k ==> out@[m] == i16_sample_at(inbuf@, m),
        decreases n - k,
    {
        assert(4 * k + 4 <= inbuf@.len());
        let b0 = inbuf[4 * k];
        let b1 = inbuf[4 * k + 1];
        let b2 = inbuf[4 * k + 2];
        let b3 = inbuf[4 * k + 3];
        let re = #[verifier::truncate] (((b0 as u16) | ((b1 as u16) << 8u16)) as i16);
        let im = #[verifier::truncate] (((b2 as u16) | ((b3 as u16) << 8u16)) as i16);
        out.push(Complex { re, im });
        k = k + 1;
    }
    assert(out@ =~= decode_i16_spec(inbuf@));
    Ok(out)
}

/// Sample `k` of a floating-point wire chunk: two little-endian 32-bit bit
/// patterns, I then Q. The components are kept as raw `u32` bit patterns so
/// the codec stays bit-exact.
pub open spec fn f32_sample_at(bytes: Seq<u8>, k: int) -> Complex<u32> {
    Complex {
        re: le32(bytes[8 * k], bytes[8 * k + 1], bytes[8 * k + 2], bytes[8 * k + 3]),
        im: le32(bytes[8 * k + 4], bytes[8 * k + 5], bytes[8 * k + 6], bytes[8 * k + 7]),
    }
}

/// The sample sequence held by a floating-point wire chunk.
pub open spec fn decode_f32_spec(bytes: Seq<u8>) -> Seq<Complex<u32>> {
    Seq::new(bytes.len() / 8, |k: int| f32_sample_at(bytes, k))
}

/// Byte `r` (0..8) of the floating-point wire form of sample `s`.
pub open spec fn f32_sample_byte(s: Complex<u32>, r: int) -> u8 {
    let w = if r < 4 {
        s.re
    } else {
        s.im
    };
    let p = if r < 4 {
        r
    } else {
        r - 4
    };
    if p == 0 {
        (w & 0xff) as u8
    } else if p == 1 {
        ((w >> 8) & 0xff) as u8
    } else if p == 2 {
        ((w >> 16) & 0xff) as u8
    } else {
        ((w >> 24) & 0xff) as u8
    }
}

/// The floating-point wire form of a sample sequence.
pub open spec fn encode_f32_spec(samples: Seq<Complex<u32>>) -> Seq<u8> {
    Seq::new(8 * samples.len(), |j: int| f32_sample_byte(samples[j / 8], j % 8))
}

/// Decode a floating-point wire chunk into samples whose components are the
/// raw 32-bit little-endian bit patterns.
///
/// Fails exactly when the byte count is not a multiple of 8.
pub fn convert_iqf32_to_complex(inbuf: &[u8]) -> (r: Result<Vec<Complex<u32>>, MalformedChunk>)
    ensures
        r is Ok <==> inbuf@.len() % 8 == 0,
        r matches Ok(v) ==> v@ == decode_f32_spec(inbuf@),
{
    if inbuf.len() % 8 != 0 {
        return Err(MalformedChunk);
    }
    let len = inbuf.len();
    let n = len / 8;
    let mut out: Vec<Complex<u32>> = Vec::new();
    let mut k: usize = 0;
    while k < n
        invariant
            len == inbuf@.len(),
            inbuf@.len() % 8 == 0,
            n == inbuf@.len() / 8,
            k <= n,
            out@.len() == k,
            forall|m: int| 0 <= m < k ==> out@[m] == f32_sample_at(inbuf@, m),
        decreases n - k,
    {
        assert(8 * k + 8 <= inbuf@.len());
        let re = le32_read(inbuf[8 * k], inbuf[8 * k + 1], inbuf[8 * k + 2], inbuf[8 * k + 3]);
        let im = le32_read(
            inbuf[8 * k + 4],
            inbuf[8 * k + 5],
            inbuf[8 * k + 6],
            inbuf[8 * k + 7],
        );
        out.push(Complex { re, im });
        k = k + 1;
    }
    assert(out@ =~= decode_f32_spec(inbuf@));
    Ok(out)
}

/// Assemble a little-endian 32-bit word from four bytes.
fn le32_read(b0: u8, b1: u8, b2: u8, b3: u8) -> (w: u32)
    ensures
        w == le32(b0, b1, b2, b3),
{
    (b0 as u32) | ((b1 as u32) << 8u32) | ((b2 as u32) << 16u32) | ((b3 as u32) << 24u32)
}

/// Encode samples with `i16` components into the fixed-point wire form:
/// little-endian, I then Q, 4 bytes per sample.
pub fn convert_complex_to_iqi16(samples: &Vec<Complex<i16>>) -> (r: Vec<u8>)
    requires
        4 * samples@.len() <= usize::MAX,
    ensures
        r@ == encode_i16_spec(samples@),
{
    let n = samples.len();
    let mut out: Vec<u8> = Vec::new();
    let mut k: usize = 0;
    while k < n
        invariant
            n == samples@.len(),
            4 * n <= usize::MAX,
            k <= n,
            out@.len() == 4 * k,
            forall|j: int| 0 <= j < 4 * k ==> out@[j] == i16_sample_byte(samples@[j / 4], j % 4),
        decreases n - k,
    {
        let s = samples[k];
        let reu = #[verifier::truncate] (s.re as u16);
        let imu = #[verifier::truncate] (s.im as u16);
        out.push((reu & 0xff) as u8);
        out.push(((reu >> 8u16) & 0xff) as u8);
        out.push((imu & 0xff) as u8);
        out.push(((imu >> 8u16) & 0xff) as u8);
        k = k + 1;
    }
    assert(out@ =~= encode_i16_spec(samples@));
    out
}

/// Encode samples with 32-bit bit-pattern components into the floating-point
/// wire form: little-endian, I then Q, 8 bytes per sample.
pub fn convert_complex_to_iqf32(samples: &Vec<Complex<u32>>) -> (r: Vec<u8>)
    requires
        8 * samples@.len() <= usize::MAX,
    ensures
        r@ == encode_f32_spec(samples@),
{
    let n = samples.len();
    let mut out: Vec<u8> = Vec::new();
    let mut k: usize = 0;
    while k < n
        invariant
            n == samples@.len(),
            8 * n <= usize::MAX,
            k <= n,
            out@.len() == 8 * k,
            forall|j: int| 0 <= j < 8 * k ==> out@[j] == f32_sample_byte(samples@[j / 8], j % 8),
        decreases n - k,
    {
        let s = samples[k];
        out.push((s.re & 0xff) as u8);
        out.push(((s.re >> 8u32) & 0xff) as u8);
        out.push(((s.re >> 16u32) & 0xff) as u8);
        out.push(((s.re >> 24u32) & 0xff) as u8);
        out.push((s.im & 0xff) as u8);
        out.push(((s.im >> 8u32) & 0xff) as u8);
        out.push(((s.im >> 16u32) & 0xff) as u8);
        out.push(((s.im >> 24u32) & 0xff) as u8);
        k = k + 1;
    }
    assert(out@ =~= encode_f32_spec(samples@));
    out
}

/// The two bytes of a fixed-point component reassemble into that component.
proof fn lemma_i16_from_its_bytes(v: i16)
    ensures
        le16((v as u16 & 0xff) as u8, ((v as u16 >> 8) & 0xff) as u8) as i16 == v,
{
    assert(le16((v as u16 & 0xff) as u8, ((v as u16 >> 8) & 0xff) as u8) as i16 == v)
        by (bit_vector);
}

/// A fixed-point component built from two bytes gives those bytes back.
proof fn lemma_le16_to_its_bytes(b0: u8, b1: u8)
    ensures
        ((le16(b0, b1) as i16) as u16 & 0xff) as u8 == b0,
        (((le16(b0, b1) as i16) as u16 >> 8) & 0xff) as u8 == b1,
{
    assert(((le16(b0, b1) as i16) as u16 & 0xff) as u8 == b0) by (bit_vector);
    assert((((le16(b0, b1) as i16) as u16 >> 8) & 0xff) as u8 == b1) by (bit_vector);
}

/// The four bytes of a floating-point component reassemble into it.
proof fn lemma_u32_from_its_bytes(w: u32)
    ensures
        le32(
            (w & 0xff) as u8,
            ((w >> 8) & 0xff) as u8,
            ((w >> 16) & 0xff) as u8,
            ((w >> 24) & 0xff) as u8,
        ) == w,
{
    assert(le32(
        (w & 0xff) as u8,
        ((w >> 8) & 0xff) as u8,
        ((w >> 16) & 0xff) as u8,
        ((w >> 24) & 0xff) as u8,
    ) == w) by (bit_vector);
}

/// A floating-point component built from four bytes gives those bytes back.
proof fn lemma_le32_to_its_bytes(b0: u8, b1: u8, b2: u8, b3: u8)
    ensures
        (le32(b0, b1, b2, b3) & 0xff) as u8 == b0,
        ((le32(b0, b1, b2, b3) >> 8) & 0xff) as u8 == b1,
        ((le32(b0, b1, b2, b3) >> 16) & 0xff) as u8 == b2,
        ((le32(b0, b1, b2, b3) >> 24) & 0xff) as u8 == b3,
{
    assert((le32(b0, b1, b2, b3) & 0xff) as u8 == b0) by (bit_vector);
    assert(((le32(b0, b1, b2, b3) >> 8) & 0xff) as u8 == b1) by (bit_vector);
    assert(((le32(b0, b1, b2, b3) >> 16) & 0xff) as u8 == b2) by (bit_vector);
    assert(((le32(b0, b1, b2, b3) >> 24) & 0xff) as u8 == b3) by (bit_vector);
}

/// Encoding a decoded fixed-point chunk reproduces the chunk, byte for byte:
/// the codec loses nothing on an aligned chunk.
pub proof fn lemma_encode_decode_i16(bytes: Seq<u8>)
    requires
        bytes.len() % 4 == 0,
    ensures
        encode_i16_spec(decode_i16_spec(bytes)) == bytes,
{
    let samples = decode_i16_spec(bytes);
    assert forall|j: int| 0 <= j < 4 * samples.len() implies encode_i16_spec(samples)[j]
        == bytes[j] by {
        let q = j / 4;
        let r = j % 4;
        assert(j == 4 * q + r && 0 <= r < 4);
        lemma_le16_to_its_bytes(bytes[4 * q], bytes[4 * q + 1]);
        lemma_le16_to_its_bytes(bytes[4 * q + 2], bytes[4 * q + 3]);
    }
    assert(encode_i16_spec(decode_i16_spec(bytes)) =~= bytes);
}

/// Decoding an encoded fixed-point sample sequence reproduces the samples.
pub proof fn lemma_decode_encode_i16(samples: Seq<Complex<i16>>)
    ensures
        decode_i16_spec(encode_i16_spec(samples)) == samples,
{
    let bytes = encode_i16_spec(samples);
    assert forall|k: int| 0 <= k < samples.len() implies decode_i16_spec(bytes)[k]
        == samples[k] by {
        assert(bytes[4 * k] == i16_sample_byte(samples[k], 0));
        assert(bytes[4 * k + 1] == i16_sample_byte(samples[k], 1));
        assert(bytes[4 * k + 2] == i16_sample_byte(samples[k], 2));
        assert(bytes[4 * k + 3] == i16_sample_byte(samples[k], 3));
        lemma_i16_from_its_bytes(samples[k].re);
        lemma_i16_from_its_bytes(samples[k].im);
    }
    assert(decode_i16_spec(encode_i16_spec(samples)) =~= samples);
}

/// Encoding a decoded floating-point chunk reproduces the chunk byte for byte.
pub proof fn lemma_encode_decode_f32(bytes: Seq<u8>)
    requires
        bytes.len() % 8 == 0,
    ensures
        encode_f32_spec(decode_f32_spec(bytes)) == bytes,
{
    let samples = decode_f32_spec(bytes);
    assert forall|j: int| 0 <= j < 8 * samples.len() implies encode_f32_spec(samples)[j]
        == bytes[j] by {
        let q = j / 8;
        let r = j % 8;
        assert(j == 8 * q + r && 0 <= r < 8);
        lemma_le32_to_its_bytes(bytes[8 * q], bytes[8 * q + 1], bytes[8 * q + 2], bytes[8 * q + 3]);
        lemma_le32_to_its_bytes(
            bytes[8 * q + 4],
            bytes[8 * q + 5],
            bytes[8 * q + 6],
            bytes[8 * q + 7],
        );
    }
    assert(encode_f32_spec(decode_f32_spec(bytes)) =~= bytes);
}

/// Decoding is chunk-local for the fixed-point format: splitting a byte
/// stream at any sample-aligned point and decoding the parts yields the same
/// samples as decoding the whole.
pub proof fn lemma_decode_i16_concat(b1: Seq<u8>, b2: Seq<u8>)
    requires
        b1.len() % 4 == 0,
    ensures
        decode_i16_spec(b1 + b2) == decode_i16_spec(b1) + decode_i16_spec(b2),
{
    let n1 = b1.len() as int / 4;
    vstd::arithmetic::div_mod::lemma_fundamental_div_mod(b1.len() as int, 4);
    vstd::arithmetic::div_mod::lemma_hoist_over_denominator(b2.len() as int, n1, 4);
    assert(decode_i16_spec(b1 + b2).len() == n1 + b2.len() / 4);
    assert forall|k: int| 0 <= k < n1 + b2.len() / 4 implies decode_i16_spec(b1 + b2)[k] == (
    decode_i16_spec(b1) + decode_i16_spec(b2))[k] by {
        if k < n1 {
            assert(i16_sample_at(b1 + b2, k) == i16_sample_at(b1, k));
        } else {
            assert(i16_sample_at(b1 + b2, k) == i16_sample_at(b2, k - n1));
        }
    }
    assert(decode_i16_spec(b1 + b2) =~= decode_i16_spec(b1) + decode_i16_spec(b2));
}

/// Decoding is chunk-local for the floating-point format as well.
pub proof fn lemma_decode_f32_concat(b1: Seq<u8>, b2: Seq<u8>)
    requires
        b1.len() % 8 == 0,
    ensures
        decode_f32_spec(b1 + b2) == decode_f32_spec(b1) + decode_f32_spec(b2),
{
    let n1 = b1.len() as int / 8;
    vstd::arithmetic::div_mod::lemma_fundamental_div_mod(b1.len() as int, 8);
    vstd::arithmetic::div_mod::lemma_hoist_over_denominator(b2.len() as int, n1, 8);
    assert(decode_f32_spec(b1 + b2).len() == n1 + b2.len() / 8);
    assert forall|k: int| 0 <= k < n1 + b2.len() / 8 implies decode_f32_spec(b1 + b2)[k] == (
    decode_f32_spec(b1) + decode_f32_spec(b2))[k] by {
        if k < n1 {
            assert(f32_sample_at(b1 + b2, k) == f32_sample_at(b1, k));
        } else {
            assert(f32_sample_at(b1 + b2, k) == f32_sample_at(b2, k - n1));
        }
    }
    assert(decode_f32_spec(b1 + b2) =~= decode_f32_spec(b1) + decode_f32_spec(b2));
}

/// Decoding an encoded floating-point sample sequence reproduces the samples.
pub proof fn lemma_decode_encode_f32(samples: Seq<Complex<u32>>)
    ensures
        decode_f32_spec(encode_f32_spec(samples)) == samples,
{
    let bytes = encode_f32_spec(samples);
    assert forall|k: int| 0 <= k < samples.len() implies decode_f32_spec(bytes)[k]
        == samples[k] by {
        assert forall|r: int| 0 <= r < 8 implies bytes[8 * k + r]
            == f32_sample_byte(samples[k], r) by {
            assert((8 * k + r) / 8 == k && (8 * k + r) % 8 == r);
        }
        lemma_u32_from_its_bytes(samples[k].re);
        lemma_u32_from_its_bytes(samples[k].im);
    }
    assert(decode_f32_spec(encode_f32_spec(samples)) =~= samples);
}

} // verus!
