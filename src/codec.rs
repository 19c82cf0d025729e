//! Frames: a payload of UTF-8 text preceded by its length in bytes, written
//! as an unsigned 64-bit number in eight big-endian bytes.
use vstd::prelude::*;
use vstd::utf8::{decode_utf8, encode_utf8, valid_utf8};

verus! {

broadcast use vstd::utf8::encode_utf8_valid_utf8, vstd::utf8::encode_utf8_decode_utf8;

/// The eight bytes of `n`, most significant first.
pub open spec fn be_bytes(n: u64) -> Seq<u8> {
    seq![
        (n >> 56u64) as u8,
        (n >> 48u64) as u8,
        (n >> 40u64) as u8,
        (n >> 32u64) as u8,
        (n >> 24u64) as u8,
        (n >> 16u64) as u8,
        (n >> 8u64) as u8,
        n as u8,
    ]
}

/// The number that eight bytes spell, most significant first.
pub open spec fn be_value(b: Seq<u8>) -> u64 {
    (b[0] as u64) << 56u64 | (b[1] as u64) << 48u64 | (b[2] as u64) << 40u64 | (b[3] as u64)
        << 32u64 | (b[4] as u64) << 24u64 | (b[5] as u64) << 16u64 | (b[6] as u64) << 8u64
        | (b[7] as u64)
}

/// The frame that carries the text `s`.
pub open spec fn frame_of(s: Seq<char>) -> Seq<u8> {
    be_bytes(encode_utf8(s).len() as u64) + encode_utf8(s)
}

proof fn lemma_be_round_trip(n: u64)
    ensures
        be_value(be_bytes(n)) == n,
{
    assert(((((n >> 56u64) as u8) as u64) << 56u64 | (((n >> 48u64) as u8) as u64) << 48u64 | (((n
        >> 40u64) as u8) as u64) << 40u64 | (((n >> 32u64) as u8) as u64) << 32u64 | (((n
        >> 24u64) as u8) as u64) << 24u64 | (((n >> 16u64) as u8) as u64) << 16u64 | (((n
        >> 8u64) as u8) as u64) << 8u64 | ((n as u8) as u64)) == n) by (bit_vector);
}

/// The length prefix of a frame whose payload has `n` bytes.
pub fn length_header(n: u64) -> (r: [u8; 8])
    ensures
        r@ == be_bytes(n),
{
    let r = [
        #[verifier::truncate]
        ((n >> 56) as u8),
        #[verifier::truncate]
        ((n >> 48) as u8),
        #[verifier::truncate]
        ((n >> 40) as u8),
        #[verifier::truncate]
        ((n >> 32) as u8),
        #[verifier::truncate]
        ((n >> 24) as u8),
        #[verifier::truncate]
        ((n >> 16) as u8),
        #[verifier::truncate]
        ((n >> 8) as u8),
        #[verifier::truncate]
        (n as u8),
    ];
    assert(r@ =~= be_bytes(n));
    r
}

/// The payload length that a frame's eight-byte prefix announces.
pub fn frame_len(header: &[u8; 8]) -> (r: u64)
    ensures
        r == be_value(header@),
{
    (header[0] as u64) << 56 | (header[1] as u64) << 48 | (header[2] as u64) << 40 | (
    header[3] as u64) << 32 | (header[4] as u64) << 24 | (header[5] as u64) << 16 | (
    header[6] as u64) << 8 | (header[7] as u64)
}

/// The frame that carries `s`.
pub fn encode_frame(s: &str) -> (r: Vec<u8>)
    ensures
        r@ == frame_of(s@),
{
    let bytes = s.as_bytes();
    let header = length_header(bytes.len() as u64);
    let mut out: Vec<u8> = Vec::new();
    let mut i: usize = 0;
    while i < 8
        invariant
            i <= 8,
            out@ == header@.subrange(0, i as int),
        decreases 8 - i,
    {
        out.push(header[i]);
        i = i + 1;
    }
    let mut j: usize = 0;
    while j < bytes.len()
        invariant
            j <= bytes@.len(),
            out@ == header@ + bytes@.subrange(0, j as int),
        decreases bytes@.len() - j,
    {
        out.push(bytes[j]);
        j = j + 1;
    }
    assert(bytes@.subrange(0, bytes@.len() as int) == bytes@);
    out
}

/// Relies on `String::from_utf8`: it accepts exactly the valid UTF-8 byte
/// sequences and keeps the characters they encode.
#[verifier::external_body]
fn utf8_string(bytes: Vec<u8>) -> (r: Option<String>)
    ensures
        r is Some <==> valid_utf8(bytes@),
        r matches Some(s) ==> s@ == decode_utf8(bytes@),
{
    String::from_utf8(bytes).ok()
}

/// The text that a frame's payload carries; `None` where the payload is not
/// valid UTF-8.
pub fn decode_payload(bytes: Vec<u8>) -> (r: Option<String>)
    ensures
        r is Some <==> valid_utf8(bytes@),
        r matches Some(s) ==> s@ == decode_utf8(bytes@),
{
    utf8_string(bytes)
}

/// Reading back a frame gives the text it was made from: the prefix
/// announces exactly the bytes that follow, and they decode to the text.
pub proof fn lemma_frame_round_trip(s: Seq<char>)
    requires
        encode_utf8(s).len() <= u64::MAX,
    ensures
        frame_of(s).len() == 8 + be_value(frame_of(s).subrange(0, 8)),
        valid_utf8(frame_of(s).subrange(8, frame_of(s).len() as int)),
        decode_utf8(frame_of(s).subrange(8, frame_of(s).len() as int)) == s,
{
    let n = encode_utf8(s).len() as u64;
    lemma_be_round_trip(n);
    assert(frame_of(s).subrange(0, 8) == be_bytes(n));
    assert(frame_of(s).subrange(8, frame_of(s).len() as int) == encode_utf8(s));
}

} // verus!
