//! The digest that identifies a block, and the proof-of-work target on it.
use vstd::prelude::*;
use vstd::string::StrSliceExecFns;

use crypto::digest::Digest;

verus! {

/// The lowercase hexadecimal SHA-256 digest of a byte sequence.
pub uninterp spec fn sha256_hex(bytes: Seq<u8>) -> Seq<char>;

/// Relies on rust-crypto's `Sha256` (`new`, `input`, `result_str`): the hex
/// form of the 256-bit digest of the bytes, two characters per digest byte.
#[verifier::external_body]
pub(crate) fn digest_hex(bytes: &Vec<u8>) -> (r: String)
    ensures
        r@ == sha256_hex(bytes@),
        r@.len() == 64,
{
    let mut hasher = crypto::sha2::Sha256::new();
    hasher.input(bytes.as_slice());
    hasher.result_str()
}

/// `hash` starts with `difficulty` ASCII zeros.
pub open spec fn meets_target(hash: Seq<char>, difficulty: nat) -> bool {
    &&& difficulty <= hash.len()
    &&& forall|i: int| 0 <= i < difficulty ==> hash[i] == '0'
}

/// Whether `hash` starts with `difficulty` ASCII zeros.
pub fn has_zero_prefix(hash: &String, difficulty: usize) -> (r: bool)
    ensures
        r == meets_target(hash@, difficulty as nat),
{
    let s = hash.as_str();
    if s.unicode_len() < difficulty {
        return false;
    }
    let mut i: usize = 0;
    while i < difficulty
        invariant
            i <= difficulty <= s@.len(),
            s@ == hash@,
            forall|j: int| 0 <= j < i ==> hash@[j] == '0',
        decreases difficulty - i,
    {
        if s.get_char(i) != '0' {
            return false;
        }
        i = i + 1;
    }
    true
}

} // verus!
