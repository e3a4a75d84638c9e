//! Little-endian value/byte-sequence conversions.
//!
//! These are the canonical serialization used for all register-to-memory and
//! immediate-to-memory stores: a signed integer of a given bit-width becomes
//! exactly `width / 8` little-endian bytes, and decoding those bytes as a
//! little-endian number reproduces the value.

use vstd::prelude::*;

verus! {

/// Byte `k` (counting from the least significant end) of the 64-bit
/// two's-complement image of a value.
pub open spec fn spec_le_byte(v: u64, k: u64) -> u8 {
    ((v >> (8 * k)) & 0xff) as u8
}

/// The unsigned little-endian value of the `n` bytes of `data` that start at
/// `off`.
pub open spec fn spec_le_value(data: Seq<u8>, off: int, n: nat) -> nat
    decreases n,
{
    if n == 0 {
        0
    } else {
        data[off] as nat + 256 * spec_le_value(data, off + 1, (n - 1) as nat)
    }
}

/// The 64-bit two's-complement image of a 32-bit value: the low 32 bits hold
/// the value's bits, the upper 32 bits are zero.
pub open spec fn spec_image32(v: i32) -> u64 {
    (v as u32) as u64
}

/// The 64-bit two's-complement image of a 64-bit value.
pub open spec fn spec_image64(v: i64) -> u64 {
    v as u64
}

/// The signed reading of an unsigned `width`-bit value `w`: the inverse of
/// the two's-complement image at that width.
pub open spec fn spec_signed_of(w: nat, width: nat) -> int {
    if w < vstd::arithmetic::power2::pow2((width - 1) as nat) {
        w as int
    } else {
        w - vstd::arithmetic::power2::pow2(width)
    }
}

/// Extracts byte `k` of the 64-bit image of `v`.
fn extract_byte(v: u64, k: u64) -> (b: u8)
    requires
        k < 8,
    ensures
        b == spec_le_byte(v, k),
{
    proof {
        assert((v >> (8 * k)) & 0xff < 256) by (bit_vector);
    }
    ((v >> (8 * k)) & 0xff) as u8
}

/// Serializes the low 8 bits of `value` as one little-endian byte.
pub fn convert_i8_to_u8vec(value: i32) -> (r: Vec<u8>)
    ensures
        r@.len() == 1,
        forall|k: u64| k < 1 ==> r@[k as int] == spec_le_byte(spec_image32(value), k),
{
    let v: u64 = (value as u32) as u64;
    let mut r: Vec<u8> = Vec::new();
    r.push(extract_byte(v, 0));
    r
}

/// Serializes the low 16 bits of `value` as two little-endian bytes.
pub fn convert_i16_to_u8vec(value: i32) -> (r: Vec<u8>)
    ensures
        r@.len() == 2,
        forall|k: u64| k < 2 ==> r@[k as int] == spec_le_byte(spec_image32(value), k),
{
    let v: u64 = (value as u32) as u64;
    let mut r: Vec<u8> = Vec::new();
    r.push(extract_byte(v, 0));
    r.push(extract_byte(v, 1));
    r
}

/// Serializes `value` as four little-endian bytes.
pub fn convert_i32_to_u8vec(value: i32) -> (r: Vec<u8>)
    ensures
        r@.len() == 4,
        forall|k: u64| k < 4 ==> r@[k as int] == spec_le_byte(spec_image32(value), k),
{
    let v: u64 = (value as u32) as u64;
    let mut r: Vec<u8> = Vec::new();
    r.push(extract_byte(v, 0));
    r.push(extract_byte(v, 1));
    r.push(extract_byte(v, 2));
    r.push(extract_byte(v, 3));
    r
}

/// Serializes `value` as eight little-endian bytes.
pub fn convert_i64_to_u8vec(value: i64) -> (r: Vec<u8>)
    ensures
        r@.len() == 8,
        forall|k: u64| k < 8 ==> r@[k as int] == spec_le_byte(spec_image64(value), k),
{
    let v: u64 = value as u64;
    let mut r: Vec<u8> = Vec::new();
    r.push(extract_byte(v, 0));
    r.push(extract_byte(v, 1));
    r.push(extract_byte(v, 2));
    r.push(extract_byte(v, 3));
    r.push(extract_byte(v, 4));
    r.push(extract_byte(v, 5));
    r.push(extract_byte(v, 6));
    r.push(extract_byte(v, 7));
    r
}

/// Decoding `n` little-endian bytes of the image of `v` yields the low
/// `8 * n` bits of `v`, for each supported byte count.
proof fn lemma_le_decode_bytes(v: u64, data: Seq<u8>, off: int, n: nat)
    requires
        n == 1 || n == 2 || n == 4 || n == 8,
        0 <= off,
        off + n <= data.len(),
        forall|k: u64| k < n ==> data[off + k] == spec_le_byte(v, k),
    ensures
        n == 1 ==> spec_le_value(data, off, n) == v & 0xff,
        n == 2 ==> spec_le_value(data, off, n) == v & 0xffff,
        n == 4 ==> spec_le_value(data, off, n) == v & 0xffff_ffff,
        n == 8 ==> spec_le_value(data, off, n) == v,
{
    reveal_with_fuel(spec_le_value, 9);
    let b0 = data[off + 0];
    if n == 1 {
        assert(b0 == spec_le_byte(v, 0));
        assert(spec_le_value(data, off, 1) == b0);
        assert(b0 == v & 0xff) by (bit_vector)
            requires
                b0 == ((v >> (8 * 0u64)) & 0xff) as u8,
        ;
    } else if n == 2 {
        let b1 = data[off + 1];
        assert(b0 == spec_le_byte(v, 0) && b1 == spec_le_byte(v, 1));
        assert(spec_le_value(data, off, 2) == b0 + 256 * (b1 as nat));
        assert(b0 + 256 * (b1 as nat) == v & 0xffff) by (bit_vector)
            requires
                b0 == ((v >> (8 * 0u64)) & 0xff) as u8,
                b1 == ((v >> (8 * 1u64)) & 0xff) as u8,
        ;
    } else if n == 4 {
        let b1 = data[off + 1];
        let b2 = data[off + 2];
        let b3 = data[off + 3];
        assert(b0 == spec_le_byte(v, 0) && b1 == spec_le_byte(v, 1) && b2 == spec_le_byte(v, 2)
            && b3 == spec_le_byte(v, 3));
        assert(spec_le_value(data, off, 4) == b0 + 256 * (b1 + 256 * (b2 + 256 * (b3 as nat))));
        assert(b0 + 256 * (b1 + 256 * (b2 + 256 * (b3 as nat))) == v & 0xffff_ffff)
            by (bit_vector)
            requires
                b0 == ((v >> (8 * 0u64)) & 0xff) as u8,
                b1 == ((v >> (8 * 1u64)) & 0xff) as u8,
                b2 == ((v >> (8 * 2u64)) & 0xff) as u8,
                b3 == ((v >> (8 * 3u64)) & 0xff) as u8,
        ;
    } else {
        let b1 = data[off + 1];
        let b2 = data[off + 2];
        let b3 = data[off + 3];
        let b4 = data[off + 4];
        let b5 = data[off + 5];
        let b6 = data[off + 6];
        let b7 = data[off + 7];
        assert(b0 == spec_le_byte(v, 0) && b1 == spec_le_byte(v, 1) && b2 == spec_le_byte(v, 2)
            && b3 == spec_le_byte(v, 3) && b4 == spec_le_byte(v, 4) && b5 == spec_le_byte(v, 5)
            && b6 == spec_le_byte(v, 6) && b7 == spec_le_byte(v, 7));
        assert(spec_le_value(data, off, 8) == b0 + 256 * (b1 + 256 * (b2 + 256 * (b3 + 256 * (b4
            + 256 * (b5 + 256 * (b6 + 256 * (b7 as nat))))))));
        assert(b0 + 256 * (b1 + 256 * (b2 + 256 * (b3 + 256 * (b4 + 256 * (b5 + 256 * (b6 + 256
            * (b7 as nat))))))) == v) by (bit_vector)
            requires
                b0 == ((v >> (8 * 0u64)) & 0xff) as u8,
                b1 == ((v >> (8 * 1u64)) & 0xff) as u8,
                b2 == ((v >> (8 * 2u64)) & 0xff) as u8,
                b3 == ((v >> (8 * 3u64)) & 0xff) as u8,
                b4 == ((v >> (8 * 4u64)) & 0xff) as u8,
                b5 == ((v >> (8 * 5u64)) & 0xff) as u8,
                b6 == ((v >> (8 * 6u64)) & 0xff) as u8,
                b7 == ((v >> (8 * 7u64)) & 0xff) as u8,
        ;
    }
}

/// Law: the one byte produced for an 8-bit value decodes, read as a signed
/// 8-bit little-endian number, to the value itself, for every value that the
/// width can hold.
pub proof fn lemma_byte_sequence_round_trip_i8(value: i32, data: Seq<u8>, off: int)
    requires
        -128 <= value <= 127,
        0 <= off,
        off + 1 <= data.len(),
        forall|k: u64| k < 1 ==> data[off + k] == spec_le_byte(spec_image32(value), k),
    ensures
        spec_signed_of(spec_le_value(data, off, 1), 8) == value,
{
    lemma_le_decode_bytes(spec_image32(value), data, off, 1);
    let w = spec_le_value(data, off, 1);
    vstd::arithmetic::power2::lemma2_to64();
    if value >= 0 {
        assert(((value as u32) as u64) & 0xff == value) by (bit_vector)
            requires
                0 <= value <= 127,
        ;
    } else {
        assert(((value as u32) as u64) & 0xff == value + 256) by (bit_vector)
            requires
                -128 <= value < 0,
        ;
    }
}

/// Law: the two bytes produced for a 16-bit value decode, read as a signed
/// 16-bit little-endian number, to the value itself, for every value that
/// the width can hold.
pub proof fn lemma_byte_sequence_round_trip_i16(value: i32, data: Seq<u8>, off: int)
    requires
        -32768 <= value <= 32767,
        0 <= off,
        off + 2 <= data.len(),
        forall|k: u64| k < 2 ==> data[off + k] == spec_le_byte(spec_image32(value), k),
    ensures
        spec_signed_of(spec_le_value(data, off, 2), 16) == value,
{
    lemma_le_decode_bytes(spec_image32(value), data, off, 2);
    vstd::arithmetic::power2::lemma2_to64();
    if value >= 0 {
        assert(((value as u32) as u64) & 0xffff == value) by (bit_vector)
            requires
                0 <= value <= 32767,
        ;
    } else {
        assert(((value as u32) as u64) & 0xffff == value + 65536) by (bit_vector)
            requires
                -32768 <= value < 0,
        ;
    }
}

/// Law: the four bytes produced for a 32-bit value decode, read as a signed
/// 32-bit little-endian number, to the value itself, for every `i32`.
pub proof fn lemma_byte_sequence_round_trip_i32(value: i32, data: Seq<u8>, off: int)
    requires
        0 <= off,
        off + 4 <= data.len(),
        forall|k: u64| k < 4 ==> data[off + k] == spec_le_byte(spec_image32(value), k),
    ensures
        spec_signed_of(spec_le_value(data, off, 4), 32) == value,
{
    lemma_le_decode_bytes(spec_image32(value), data, off, 4);
    vstd::arithmetic::power2::lemma2_to64();
    if value >= 0 {
        assert(((value as u32) as u64) & 0xffff_ffff == value) by (bit_vector)
            requires
                value >= 0,
        ;
    } else {
        assert(((value as u32) as u64) & 0xffff_ffff == value + 0x1_0000_0000) by (bit_vector)
            requires
                value < 0,
        ;
    }
}

/// Law: the eight bytes produced for a 64-bit value decode, read as a signed
/// 64-bit little-endian number, to the value itself, for every `i64`.
pub proof fn lemma_byte_sequence_round_trip_i64(value: i64, data: Seq<u8>, off: int)
    requires
        0 <= off,
        off + 8 <= data.len(),
        forall|k: u64| k < 8 ==> data[off + k] == spec_le_byte(spec_image64(value), k),
    ensures
        spec_signed_of(spec_le_value(data, off, 8), 64) == value,
{
    lemma_le_decode_bytes(spec_image64(value), data, off, 8);
    vstd::arithmetic::power2::lemma2_to64();
    vstd::arithmetic::power2::lemma2_to64_rest();
    if value >= 0 {
        assert((value as u64) == value) by (bit_vector)
            requires
                value >= 0,
        ;
    } else {
        assert((value as u64) == value + 0x1_0000_0000_0000_0000) by (bit_vector)
            requires
                value < 0,
        ;
    }
}

} // verus!
