//! Identifies a song from its acoustic fingerprint.
//!
//! A file is known by a digest of its bytes. Under that digest a cache keeps
//! the fingerprint and the playing time that were worked out for the file, so
//! that a file that was moved or renamed is not decoded again. The candidates
//! that a fingerprint lookup returns are resolved to one title and artist.

use vstd::prelude::*;
use vstd::string::*;
use vstd::utf8::*;

pub mod acoustid;
pub mod cache;
pub mod codec;
pub mod rename_music_files;
pub mod song;

pub use crate::song::{Decoded, IdentifyError, Recorded, Song};

use crate::codec::string_from_utf8;

verus! {

/// The digest that `twox_hash::XxHash64`, seeded with zero, gives for a byte
/// vector when it is fed through `std::hash::BuildHasher::hash_one`. Before
/// the bytes, `hash_one` feeds the vector's length as a machine word, so the
/// digest of given bytes is fixed for one target and differs between targets
/// of different word size or byte order.
pub uninterp spec fn content_digest(data: Seq<u8>) -> u64;

/// The decimal digit `d` as a character.
pub open spec fn digit(d: nat) -> char
    recommends
        d < 10,
{
    ((d + 48) as u8) as char
}

/// The decimal numeral of `n`, without leading zeros.
pub open spec fn decimal(n: nat) -> Seq<char>
    decreases n,
{
    if n < 10 {
        seq![digit(n)]
    } else {
        decimal(n / 10).push(digit(n % 10))
    }
}

/// The hash under which content `data` is cached.
pub open spec fn file_hash_of(data: Seq<u8>) -> Seq<char> {
    decimal(content_digest(data) as nat)
}

/// Calls `hash_one` of `std::hash::BuildHasherDefault<twox_hash::XxHash64>` on
/// the bytes. The hasher starts from the fixed seed zero, so on one target the
/// digest depends on the bytes alone; the contract gives that digest its name
/// and says no more.
#[verifier::external_body]
fn xxhash64(data: &Vec<u8>) -> (digest: u64)
    ensures
        digest == content_digest(data@),
{
    let hasher: std::hash::BuildHasherDefault<twox_hash::XxHash64> = Default::default();
    std::hash::BuildHasher::hash_one(&hasher, data)
}

/// The decimal numeral of a number has at least one digit, and its digits are
/// ASCII characters.
pub proof fn lemma_decimal_is_ascii(n: nat)
    ensures
        decimal(n).len() >= 1,
        is_ascii_chars(decimal(n)),
    decreases n,
{
    if n >= 10 {
        lemma_decimal_is_ascii(n / 10);
    }
}

/// The digits of `n` in decimal, as ASCII bytes.
fn decimal_digits(n: u64) -> (bytes: Vec<u8>)
    ensures
        bytes@.len() == decimal(n as nat).len(),
        forall|i: int| 0 <= i < bytes@.len() ==> bytes@[i] == decimal(n as nat)[i] as u8,
{
    let ghost numeral = decimal(n as nat);
    let mut turned: Vec<u8> = Vec::new();
    let mut rest: u64 = n / 10;
    turned.push(48 + (n % 10) as u8);
    while rest > 0
        invariant
            turned@.len() >= 1,
            numeral == decimal(n as nat),
            numeral.len() == turned@.len() + (if rest > 0 {
                decimal(rest as nat).len()
            } else {
                0
            }),
            forall|i: int|
                0 <= i < turned@.len() ==> turned@[i] == numeral[numeral.len() - 1 - i] as u8,
            rest > 0 ==> forall|i: int|
                0 <= i < decimal(rest as nat).len() ==> numeral[i] == decimal(rest as nat)[i],
        decreases rest,
    {
        let ghost head = decimal(rest as nat);
        proof {
            if rest >= 10 {
                lemma_decimal_is_ascii((rest / 10) as nat);
            }
            assert(head[head.len() - 1] == digit((rest % 10) as nat));
            assert(numeral[head.len() - 1] == head[head.len() - 1]);
        }
        turned.push(48 + (rest % 10) as u8);
        rest = rest / 10;
    }
    let mut bytes: Vec<u8> = Vec::new();
    while turned.len() > 0
        invariant
            bytes@.len() + turned@.len() == numeral.len(),
            forall|i: int|
                0 <= i < turned@.len() ==> turned@[i] == numeral[numeral.len() - 1 - i] as u8,
            forall|i: int| 0 <= i < bytes@.len() ==> bytes@[i] == numeral[i] as u8,
        decreases turned@.len(),
    {
        match turned.pop() {
            Some(byte) => bytes.push(byte),
            None => {},
        }
    }
    bytes
}

/// Writes a number in decimal.
pub fn decimal_text(n: u64) -> (s: String)
    ensures
        s@ == decimal(n as nat),
{
    let bytes = decimal_digits(n);
    proof {
        let numeral = decimal(n as nat);
        lemma_decimal_is_ascii(n as nat);
        is_ascii_chars_encode_utf8(numeral);
        assert(bytes@ =~= encode_utf8(numeral));
        encode_utf8_valid_utf8(numeral);
        encode_utf8_decode_utf8(numeral);
    }
    match string_from_utf8(bytes) {
        Some(text) => text,
        None => String::new(),
    }
}

/// An acoustic fingerprint, as the text in which it is sent and stored.
#[derive(Debug, Clone)]
pub struct AcoustId(String);

impl View for AcoustId {
    type V = Seq<char>;

    closed spec fn view(&self) -> Seq<char> {
        self.0@
    }
}

impl AcoustId {
    /// Wraps the text of a fingerprint.
    pub fn new(fingerprint: String) -> (id: AcoustId)
        ensures
            id@ == fingerprint@,
    {
        AcoustId(fingerprint)
    }

    /// The text of the fingerprint.
    pub fn as_str(&self) -> (s: &str)
        ensures
            s@ == self@,
    {
        self.0.as_str()
    }

    /// The text of the fingerprint, as an owned string.
    pub fn to_string(&self) -> (s: String)
        ensures
            s@ == self@,
    {
        self.0.clone()
    }
}

/// The identity of a file's content: the decimal numeral of its digest.
#[derive(Debug, Clone)]
pub struct FileHash(String);

impl View for FileHash {
    type V = Seq<char>;

    closed spec fn view(&self) -> Seq<char> {
        self.0@
    }
}

impl FileHash {
    /// Hashes the full content of a file.
    pub fn of(data: &Vec<u8>) -> (hash: FileHash)
        ensures
            hash@ == file_hash_of(data@),
    {
        FileHash(decimal_text(xxhash64(data)))
    }

    /// The hash as text.
    pub fn as_str(&self) -> (s: &str)
        ensures
            s@ == self@,
    {
        self.0.as_str()
    }

    /// The UTF-8 bytes of the hash's text.
    pub fn as_bytes(&self) -> (bytes: &[u8])
        ensures
            bytes@ == vstd::utf8::encode_utf8(self@),
    {
        self.0.as_str().as_bytes()
    }

    /// The hash as an owned string.
    pub fn to_string(&self) -> (s: String)
        ensures
            s@ == self@,
    {
        self.0.clone()
    }
}

/// Equal content has an equal hash.
pub proof fn lemma_hash_is_deterministic(a: Seq<u8>, b: Seq<u8>)
    requires
        a == b,
    ensures
        file_hash_of(a) == file_hash_of(b),
{
}

} // verus!
