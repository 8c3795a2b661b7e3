//! The nonce search.
use vstd::prelude::*;
use vstd::string::StringSliceAdditionalSpecFns;

use crate::decimal::{decimal_bytes, decimal_of, decimal_string, decimal_text};
use crate::digest::{hex_of, sha256, sha256_of, to_hex};

verus! {

/// Why a search came back without a nonce.
#[derive(Debug, Clone, Copy, PartialEq, Eq, Structural)]
pub enum PowError {
    /// Every nonce a `u64` can hold was tried and none met the difficulty.
    Exhausted,
}

/// The bytes that are hashed for nonce `n`: the challenge, then `n` in base 10.
pub open spec fn probe_of(challenge: Seq<u8>, n: nat) -> Seq<u8> {
    challenge + decimal_of(n)
}

/// `text` begins with at least `difficulty` characters '0'.
pub open spec fn zero_prefix(text: Seq<char>, difficulty: nat) -> bool {
    &&& difficulty <= text.len()
    &&& forall|k: int| 0 <= k < difficulty ==> text[k] == '0'
}

/// The hex text of `digest` begins with `difficulty` zero digits.
pub open spec fn meets(digest: Seq<u8>, difficulty: nat) -> bool {
    zero_prefix(hex_of(digest), difficulty)
}

/// Nonce `n` solves the challenge at the given difficulty.
pub open spec fn accepts(challenge: Seq<u8>, difficulty: nat, n: nat) -> bool {
    meets(sha256_of(probe_of(challenge, n)), difficulty)
}

/// `n` solves the challenge and no smaller nonce does.
pub open spec fn is_least_nonce(challenge: Seq<u8>, difficulty: nat, n: nat) -> bool {
    &&& accepts(challenge, difficulty, n)
    &&& forall|m: nat| m < n ==> !accepts(challenge, difficulty, m)
}

/// What a search over the nonces a `u64` holds may return: the least nonce
/// that solves the challenge, or `Exhausted` when none of them does.
pub open spec fn search_outcome(challenge: Seq<u8>, difficulty: nat, r: Result<u64, PowError>) -> bool {
    match r {
        Ok(n) => is_least_nonce(challenge, difficulty, n as nat),
        Err(e) => e == PowError::Exhausted && forall|n: nat|
            n <= u64::MAX ==> !accepts(challenge, difficulty, n),
    }
}

/// What solving may return: the least nonce in base 10, or `Exhausted` when no
/// nonce a `u64` holds solves the challenge.
pub open spec fn text_outcome(challenge: Seq<u8>, difficulty: nat, r: Result<String, PowError>) -> bool {
    match r {
        Ok(s) => exists|n: u64|
            #[trigger] is_least_nonce(challenge, difficulty, n as nat) && s@ == decimal_text(n as nat),
        Err(e) => search_outcome(challenge, difficulty, Err(e)),
    }
}

/// Whether `text` begins with `difficulty` characters '0'.
pub fn has_zero_prefix(text: &str, difficulty: u32) -> (r: bool)
    ensures
        r == zero_prefix(text@, difficulty as nat),
{
    let len = text.unicode_len();
    if difficulty as usize > len {
        return false;
    }
    let mut k: usize = 0;
    while k < difficulty as usize
        invariant
            len == text@.len(),
            difficulty <= len,
            k <= difficulty,
            forall|j: int| 0 <= j < k ==> text@[j] == '0',
        decreases difficulty - k,
    {
        if text.get_char(k) != '0' {
            return false;
        }
        k = k + 1;
    }
    true
}

/// Whether the hex text of `digest` begins with `difficulty` zero digits.
pub fn meets_difficulty(digest: &[u8], difficulty: u32) -> (r: bool)
    ensures
        r == meets(digest@, difficulty as nat),
{
    let hex = to_hex(digest);
    has_zero_prefix(hex.as_str(), difficulty)
}

/// The least nonce whose digest meets the difficulty, trying 0, 1, 2, ... in
/// turn; `Exhausted` once the whole `u64` range has failed.
pub fn solve_nonce(challenge: &[u8], difficulty: u32) -> (r: Result<u64, PowError>)
    ensures
        search_outcome(challenge@, difficulty as nat, r),
        difficulty == 0 ==> r == Ok::<u64, PowError>(0),
{
    let mut i: u64 = 0;
    loop
        invariant
            forall|m: nat| m < i ==> !accepts(challenge@, difficulty as nat, m),
            difficulty == 0 ==> i == 0,
        decreases u64::MAX - i,
    {
        let mut probe = vstd::slice::slice_to_vec(challenge);
        let mut digits = decimal_bytes(i);
        probe.append(&mut digits);
        assert(probe@ == probe_of(challenge@, i as nat));
        let digest = sha256(probe.as_slice());
        if meets_difficulty(digest.as_slice(), difficulty) {
            return Ok(i);
        }
        if i == u64::MAX {
            return Err(PowError::Exhausted);
        }
        i = i + 1;
    }
}

/// Solves the challenge: the least nonce, in base 10, such that the hex
/// SHA-256 digest of the challenge's UTF-8 bytes followed by that text starts
/// with `difficulty` zero digits.
pub fn solve_pow(challenge: &str, difficulty: u32) -> (r: Result<String, PowError>)
    ensures
        text_outcome(challenge.spec_bytes(), difficulty as nat, r),
        difficulty == 0 ==> (r matches Ok(s) && s@ == seq!['0']),
{
    match solve_nonce(challenge.as_bytes(), difficulty) {
        Ok(n) => Ok(decimal_string(n)),
        Err(e) => Err(e),
    }
}

} // verus!
