//! Encoding of option values into the native option buffers and back.
//!
//! The native layer exchanges every option as a buffer of bytes; scalar
//! values are laid out little-endian in their exact width.

use vstd::prelude::*;

verus! {

/// The 8 bytes of `v`, least significant first.
pub open spec fn le_bytes_u64(v: u64) -> Seq<u8> {
    seq![
        (v & 0xff) as u8,
        ((v >> 8u64) & 0xff) as u8,
        ((v >> 16u64) & 0xff) as u8,
        ((v >> 24u64) & 0xff) as u8,
        ((v >> 32u64) & 0xff) as u8,
        ((v >> 40u64) & 0xff) as u8,
        ((v >> 48u64) & 0xff) as u8,
        ((v >> 56u64) & 0xff) as u8,
    ]
}

/// The integer whose 8 bytes, least significant first, are `b`.
pub open spec fn u64_of_le(b: Seq<u8>) -> u64 {
    (b[0] as u64) | ((b[1] as u64) << 8u64) | ((b[2] as u64) << 16u64) | ((b[3] as u64) << 24u64)
        | ((b[4] as u64) << 32u64) | ((b[5] as u64) << 40u64) | ((b[6] as u64) << 48u64) | ((
    b[7] as u64) << 56u64)
}

/// The 4 bytes of `v`, least significant first.
pub open spec fn le_bytes_u32(v: u32) -> Seq<u8> {
    seq![
        (v & 0xff) as u8,
        ((v >> 8u32) & 0xff) as u8,
        ((v >> 16u32) & 0xff) as u8,
        ((v >> 24u32) & 0xff) as u8,
    ]
}

/// The integer whose 4 bytes, least significant first, are `b`.
pub open spec fn u32_of_le(b: Seq<u8>) -> u32 {
    (b[0] as u32) | ((b[1] as u32) << 8u32) | ((b[2] as u32) << 16u32) | ((b[3] as u32) << 24u32)
}

/// Buffer of a native `int` option.
pub open spec fn le_bytes_i32(v: i32) -> Seq<u8> {
    le_bytes_u32(#[verifier::truncate] (v as u32))
}

/// Value of a native `int` option buffer.
pub open spec fn i32_of_le(b: Seq<u8>) -> i32 {
    #[verifier::truncate] (u32_of_le(b) as i32)
}

/// Buffer of a signed 64-bit option.
pub open spec fn le_bytes_i64(v: i64) -> Seq<u8> {
    le_bytes_u64(#[verifier::truncate] (v as u64))
}

/// Value of a signed 64-bit option buffer.
pub open spec fn i64_of_le(b: Seq<u8>) -> i64 {
    #[verifier::truncate] (u64_of_le(b) as i64)
}

/// Decoding the bytes of a `u64` gives it back.
pub proof fn lemma_u64_round_trip(v: u64)
    ensures
        le_bytes_u64(v).len() == 8,
        u64_of_le(le_bytes_u64(v)) == v,
{
    assert(((v & 0xff) as u8 as u64) | ((((v >> 8u64) & 0xff) as u8 as u64) << 8u64) | ((((v
        >> 16u64) & 0xff) as u8 as u64) << 16u64) | ((((v >> 24u64) & 0xff) as u8 as u64)
        << 24u64) | ((((v >> 32u64) & 0xff) as u8 as u64) << 32u64) | ((((v >> 40u64) & 0xff) as u8
        as u64) << 40u64) | ((((v >> 48u64) & 0xff) as u8 as u64) << 48u64) | ((((v >> 56u64)
        & 0xff) as u8 as u64) << 56u64) == v) by (bit_vector);
}

/// Decoding the bytes of a `u32` gives it back.
pub proof fn lemma_u32_round_trip(v: u32)
    ensures
        le_bytes_u32(v).len() == 4,
        u32_of_le(le_bytes_u32(v)) == v,
{
    assert(((v & 0xff) as u8 as u32) | ((((v >> 8u32) & 0xff) as u8 as u32) << 8u32) | ((((v
        >> 16u32) & 0xff) as u8 as u32) << 16u32) | ((((v >> 24u32) & 0xff) as u8 as u32)
        << 24u32) == v) by (bit_vector);
}

/// Decoding the buffer of an `i32` gives it back.
pub proof fn lemma_i32_round_trip(v: i32)
    ensures
        le_bytes_i32(v).len() == 4,
        i32_of_le(le_bytes_i32(v)) == v,
{
    let u = #[verifier::truncate] (v as u32);
    lemma_u32_round_trip(u);
    assert((#[verifier::truncate] ((#[verifier::truncate] (v as u32)) as i32)) == v) by (bit_vector);
}

/// Decoding the buffer of an `i64` gives it back.
pub proof fn lemma_i64_round_trip(v: i64)
    ensures
        le_bytes_i64(v).len() == 8,
        i64_of_le(le_bytes_i64(v)) == v,
{
    let u = #[verifier::truncate] (v as u64);
    lemma_u64_round_trip(u);
    assert((#[verifier::truncate] ((#[verifier::truncate] (v as u64)) as i64)) == v) by (bit_vector);
}

/// The 8-byte buffer of `v`.
pub fn encode_u64(v: u64) -> (r: Vec<u8>)
    ensures
        r@ == le_bytes_u64(v),
{
    let r = vec![
        (v & 0xff) as u8,
        ((v >> 8u64) & 0xff) as u8,
        ((v >> 16u64) & 0xff) as u8,
        ((v >> 24u64) & 0xff) as u8,
        ((v >> 32u64) & 0xff) as u8,
        ((v >> 40u64) & 0xff) as u8,
        ((v >> 48u64) & 0xff) as u8,
        ((v >> 56u64) & 0xff) as u8,
    ];
    assert(r@ =~= le_bytes_u64(v));
    r
}

/// The value of an 8-byte buffer.
pub fn decode_u64(b: &[u8]) -> (r: u64)
    requires
        b@.len() == 8,
    ensures
        r == u64_of_le(b@),
{
    (b[0] as u64) | ((b[1] as u64) << 8u64) | ((b[2] as u64) << 16u64) | ((b[3] as u64) << 24u64)
        | ((b[4] as u64) << 32u64) | ((b[5] as u64) << 40u64) | ((b[6] as u64) << 48u64) | ((
    b[7] as u64) << 56u64)
}

/// The 4-byte buffer of `v`.
pub fn encode_u32(v: u32) -> (r: Vec<u8>)
    ensures
        r@ == le_bytes_u32(v),
{
    let r = vec![
        (v & 0xff) as u8,
        ((v >> 8u32) & 0xff) as u8,
        ((v >> 16u32) & 0xff) as u8,
        ((v >> 24u32) & 0xff) as u8,
    ];
    assert(r@ =~= le_bytes_u32(v));
    r
}

/// The value of a 4-byte buffer.
pub fn decode_u32(b: &[u8]) -> (r: u32)
    requires
        b@.len() == 4,
    ensures
        r == u32_of_le(b@),
{
    (b[0] as u32) | ((b[1] as u32) << 8u32) | ((b[2] as u32) << 16u32) | ((b[3] as u32) << 24u32)
}

/// The buffer of a native `int` option value.
pub fn encode_i32(v: i32) -> (r: Vec<u8>)
    ensures
        r@ == le_bytes_i32(v),
{
    encode_u32(v as u32)
}

/// The value of a native `int` option buffer.
pub fn decode_i32(b: &[u8]) -> (r: i32)
    requires
        b@.len() == 4,
    ensures
        r == i32_of_le(b@),
{
    decode_u32(b) as i32
}

/// The buffer of a signed 64-bit option value.
pub fn encode_i64(v: i64) -> (r: Vec<u8>)
    ensures
        r@ == le_bytes_i64(v),
{
    encode_u64(v as u64)
}

/// The value of a signed 64-bit option buffer.
pub fn decode_i64(b: &[u8]) -> (r: i64)
    requires
        b@.len() == 8,
    ensures
        r == i64_of_le(b@),
{
    decode_u64(b) as i64
}

} // verus!
