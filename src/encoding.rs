//! The canonical byte form of a block's sealed fields.
//!
//! The fields `(prev_hash, payload, timestamp, difficulty, nonce)` are
//! serialised as a tuple with bincode's default (fixed-width, little-endian)
//! format: each string as its UTF-8 length in eight bytes followed by its
//! UTF-8 bytes, each integer as eight little-endian bytes.
use vstd::bytes::{lemma_auto_spec_u64_to_from_le_bytes, spec_u64_to_le_bytes};
use vstd::prelude::*;
use vstd::utf8::{encode_utf8, encode_utf8_decode_utf8};

verus! {

#[verifier::external_type_specification]
#[verifier::external_body]
pub struct ExBincodeErrorKind(bincode::ErrorKind);

/// A string in bincode's form: its UTF-8 length, then its UTF-8 bytes.
pub open spec fn string_bytes(s: Seq<char>) -> Seq<u8> {
    spec_u64_to_le_bytes(encode_utf8(s).len() as u64) + encode_utf8(s)
}

/// The bytes that are digested to seal a block with these fields.
pub open spec fn field_bytes(
    prev_hash: Seq<char>,
    payload: Seq<char>,
    timestamp: u64,
    difficulty: usize,
    nonce: u64,
) -> Seq<u8> {
    string_bytes(prev_hash) + string_bytes(payload) + spec_u64_to_le_bytes(timestamp)
        + spec_u64_to_le_bytes(difficulty as u64) + spec_u64_to_le_bytes(nonce)
}

/// A string whose UTF-8 form has a length that bincode can write.
pub open spec fn encodable(s: Seq<char>) -> bool {
    encode_utf8(s).len() <= u64::MAX
}

/// Relies on bincode::serialize on a tuple of two strings and three unsigned
/// integers: with its default options (no size limit, fixed-width
/// little-endian integers, `usize` written as `u64`) and a `Vec` as the
/// writer it does not fail, and writes the fields one after another.
#[verifier::external_body]
pub(crate) fn serialize_fields(
    prev_hash: &String,
    payload: &String,
    timestamp: u64,
    difficulty: usize,
    nonce: u64,
) -> (r: Result<Vec<u8>, Box<bincode::ErrorKind>>)
    ensures
        r is Ok,
        r matches Ok(bytes) ==> bytes@ == field_bytes(
            prev_hash@,
            payload@,
            timestamp,
            difficulty,
            nonce,
        ),
{
    bincode::serialize(&(prev_hash.as_str(), payload.as_str(), timestamp, difficulty, nonce))
}

/// Reading a string back: the first eight bytes give the length of what
/// follows, so a string's form is never a prefix of another's.
proof fn lemma_string_bytes_prefix(a: Seq<char>, b: Seq<char>, rest_a: Seq<u8>, rest_b: Seq<u8>)
    requires
        encodable(a),
        encodable(b),
        string_bytes(a) + rest_a == string_bytes(b) + rest_b,
    ensures
        a == b,
        rest_a == rest_b,
{
    lemma_auto_spec_u64_to_from_le_bytes();
    let ea = encode_utf8(a);
    let eb = encode_utf8(b);
    let la = spec_u64_to_le_bytes(ea.len() as u64);
    let lb = spec_u64_to_le_bytes(eb.len() as u64);
    let whole = string_bytes(a) + rest_a;
    assert(whole.subrange(0, 8) =~= la);
    assert((string_bytes(b) + rest_b).subrange(0, 8) =~= lb);
    assert(ea.len() == eb.len());
    let n = ea.len() as int;
    assert(whole.subrange(8, 8 + n) =~= ea);
    assert((string_bytes(b) + rest_b).subrange(8, 8 + n) =~= eb);
    encode_utf8_decode_utf8(a);
    encode_utf8_decode_utf8(b);
    assert(whole.subrange(8 + n, whole.len() as int) =~= rest_a);
    assert((string_bytes(b) + rest_b).subrange(8 + n, whole.len() as int) =~= rest_b);
}

/// The canonical form is injective: two field tuples with the same bytes are
/// the same tuple, so changing any field changes what is digested.
pub proof fn lemma_field_bytes_injective(
    prev_a: Seq<char>,
    payload_a: Seq<char>,
    timestamp_a: u64,
    difficulty_a: usize,
    nonce_a: u64,
    prev_b: Seq<char>,
    payload_b: Seq<char>,
    timestamp_b: u64,
    difficulty_b: usize,
    nonce_b: u64,
)
    requires
        encodable(prev_a),
        encodable(payload_a),
        encodable(prev_b),
        encodable(payload_b),
        field_bytes(prev_a, payload_a, timestamp_a, difficulty_a, nonce_a) == field_bytes(
            prev_b,
            payload_b,
            timestamp_b,
            difficulty_b,
            nonce_b,
        ),
    ensures
        prev_a == prev_b,
        payload_a == payload_b,
        timestamp_a == timestamp_b,
        difficulty_a == difficulty_b,
        nonce_a == nonce_b,
{
    lemma_auto_spec_u64_to_from_le_bytes();
    let ints_a = spec_u64_to_le_bytes(timestamp_a) + spec_u64_to_le_bytes(difficulty_a as u64)
        + spec_u64_to_le_bytes(nonce_a);
    let ints_b = spec_u64_to_le_bytes(timestamp_b) + spec_u64_to_le_bytes(difficulty_b as u64)
        + spec_u64_to_le_bytes(nonce_b);
    let tail_a = string_bytes(payload_a) + ints_a;
    let tail_b = string_bytes(payload_b) + ints_b;
    assert(field_bytes(prev_a, payload_a, timestamp_a, difficulty_a, nonce_a) =~= string_bytes(
        prev_a,
    ) + tail_a);
    assert(field_bytes(prev_b, payload_b, timestamp_b, difficulty_b, nonce_b) =~= string_bytes(
        prev_b,
    ) + tail_b);
    lemma_string_bytes_prefix(prev_a, prev_b, tail_a, tail_b);
    lemma_string_bytes_prefix(payload_a, payload_b, ints_a, ints_b);
    assert(ints_a.subrange(0, 8) =~= spec_u64_to_le_bytes(timestamp_a));
    assert(ints_b.subrange(0, 8) =~= spec_u64_to_le_bytes(timestamp_b));
    assert(ints_a.subrange(8, 16) =~= spec_u64_to_le_bytes(difficulty_a as u64));
    assert(ints_b.subrange(8, 16) =~= spec_u64_to_le_bytes(difficulty_b as u64));
    assert(ints_a.subrange(16, 24) =~= spec_u64_to_le_bytes(nonce_a));
    assert(ints_b.subrange(16, 24) =~= spec_u64_to_le_bytes(nonce_b));
}

} // verus!
