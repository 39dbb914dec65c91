//! How cached values are laid out as bytes.
//!
//! A playing time is stored as its seconds in eight bytes, the most
//! significant first. A fingerprint is stored as the UTF-8 bytes of its text.

use vstd::prelude::*;
use vstd::utf8::*;

verus! {

/// The byte of `n` that starts `shift` bits above its lowest bit.
pub open spec fn byte_of(n: u64, shift: u64) -> u8 {
    ((n >> shift) & 0xff) as u8
}

/// The eight bytes of `n`, most significant first.
pub open spec fn be_bytes(n: u64) -> Seq<u8> {
    seq![
        byte_of(n, 56),
        byte_of(n, 48),
        byte_of(n, 40),
        byte_of(n, 32),
        byte_of(n, 24),
        byte_of(n, 16),
        byte_of(n, 8),
        byte_of(n, 0),
    ]
}

/// The number whose eight bytes, most significant first, are `b`.
pub open spec fn from_be_bytes(b: Seq<u8>) -> u64
    recommends
        b.len() == 8,
{
    (b[0] as u64) << 56 | (b[1] as u64) << 48 | (b[2] as u64) << 40 | (b[3] as u64) << 32 | (
    b[4] as u64) << 24 | (b[5] as u64) << 16 | (b[6] as u64) << 8 | (b[7] as u64)
}

/// The seconds that stored bytes stand for: eight bytes hold a number, any
/// other length holds none.
pub open spec fn stored_secs(b: Seq<u8>) -> Option<u64> {
    if b.len() == 8 {
        Some(from_be_bytes(b))
    } else {
        None
    }
}

/// The text that stored bytes stand for: well-formed UTF-8 holds a text, other
/// bytes hold none.
pub open spec fn stored_text(b: Seq<u8>) -> Option<Seq<char>> {
    if valid_utf8(b) {
        Some(decode_utf8(b))
    } else {
        None
    }
}

/// Calls `String::from_utf8`, which accepts exactly the well-formed UTF-8
/// byte vectors and gives the text that they encode.
#[verifier::external_body]
pub(crate) fn string_from_utf8(bytes: Vec<u8>) -> (res: Option<String>)
    ensures
        res is Some <==> valid_utf8(bytes@),
        res matches Some(text) ==> text@ == decode_utf8(bytes@),
{
    String::from_utf8(bytes).ok()
}

fn pick_byte(n: u64, shift: u64) -> (b: u8)
    requires
        shift < 64,
    ensures
        b == byte_of(n, shift),
{
    let low: u64 = (n >> shift) & 0xff;
    assert(low < 256) by (bit_vector)
        requires
            low == (n >> shift) & 0xff,
    ;
    low as u8
}

/// Lays out seconds as eight bytes, most significant first.
pub fn encode_secs(n: u64) -> (bytes: Vec<u8>)
    ensures
        bytes@ == be_bytes(n),
{
    let mut bytes: Vec<u8> = Vec::new();
    bytes.push(pick_byte(n, 56));
    bytes.push(pick_byte(n, 48));
    bytes.push(pick_byte(n, 40));
    bytes.push(pick_byte(n, 32));
    bytes.push(pick_byte(n, 24));
    bytes.push(pick_byte(n, 16));
    bytes.push(pick_byte(n, 8));
    bytes.push(pick_byte(n, 0));
    assert(bytes@ =~= be_bytes(n));
    bytes
}

/// Reads seconds back from stored bytes.
pub fn decode_secs(bytes: &Vec<u8>) -> (res: Option<u64>)
    ensures
        res == stored_secs(bytes@),
{
    if bytes.len() != 8 {
        return None;
    }
    let n: u64 = (bytes[0] as u64) << 56 | (bytes[1] as u64) << 48 | (bytes[2] as u64) << 40 | (
    bytes[3] as u64) << 32 | (bytes[4] as u64) << 24 | (bytes[5] as u64) << 16 | (bytes[6] as u64)
        << 8 | (bytes[7] as u64);
    Some(n)
}

/// Seconds that were laid out as bytes are read back unchanged.
pub proof fn lemma_secs_round_trip(n: u64)
    ensures
        stored_secs(be_bytes(n)) == Some(n),
{
    let b = be_bytes(n);
    assert(b.len() == 8);
    assert(from_be_bytes(b) == n) by {
        let b0 = b[0];
        let b1 = b[1];
        let b2 = b[2];
        let b3 = b[3];
        let b4 = b[4];
        let b5 = b[5];
        let b6 = b[6];
        let b7 = b[7];
        assert((b0 as u64) << 56 | (b1 as u64) << 48 | (b2 as u64) << 40 | (b3 as u64) << 32 | (
        b4 as u64) << 24 | (b5 as u64) << 16 | (b6 as u64) << 8 | (b7 as u64) == n)
            by (bit_vector)
            requires
                b0 == ((n >> 56) & 0xff) as u8,
                b1 == ((n >> 48) & 0xff) as u8,
                b2 == ((n >> 40) & 0xff) as u8,
                b3 == ((n >> 32) & 0xff) as u8,
                b4 == ((n >> 24) & 0xff) as u8,
                b5 == ((n >> 16) & 0xff) as u8,
                b6 == ((n >> 8) & 0xff) as u8,
                b7 == ((n >> 0) & 0xff) as u8,
        ;
    }
}

/// A text that was laid out as UTF-8 is read back unchanged.
pub proof fn lemma_text_round_trip(text: Seq<char>)
    ensures
        stored_text(encode_utf8(text)) == Some(text),
{
    encode_utf8_valid_utf8(text);
    encode_utf8_decode_utf8(text);
}

/// Different texts are laid out as different bytes.
pub proof fn lemma_utf8_is_injective(a: Seq<char>, b: Seq<char>)
    requires
        encode_utf8(a) == encode_utf8(b),
    ensures
        a == b,
{
    encode_utf8_decode_utf8(a);
    encode_utf8_decode_utf8(b);
}

} // verus!
