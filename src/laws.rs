//! Properties of the search that hold for every challenge.
use vstd::prelude::*;

use crate::decimal::decimal_text;
use crate::solver::{accepts, is_least_nonce, search_outcome, text_outcome, PowError};

verus! {

/// At difficulty zero every digest qualifies, so nonce 0 is the least solution.
pub proof fn lemma_zero_difficulty(challenge: Seq<u8>)
    ensures
        is_least_nonce(challenge, 0, 0),
{
}

/// A nonce that meets a difficulty meets every lower one.
pub proof fn lemma_accepts_lower(challenge: Seq<u8>, d1: nat, d2: nat, n: nat)
    requires
        d1 <= d2,
        accepts(challenge, d2, n),
    ensures
        accepts(challenge, d1, n),
{
}

/// A stricter difficulty is never solved by a smaller nonce, and once a
/// difficulty is out of reach every stricter one is too.
pub proof fn lemma_harder_not_earlier(
    challenge: Seq<u8>,
    d1: nat,
    d2: nat,
    r1: Result<u64, PowError>,
    r2: Result<u64, PowError>,
)
    requires
        d1 <= d2,
        search_outcome(challenge, d1, r1),
        search_outcome(challenge, d2, r2),
    ensures
        r1 matches Ok(n1) ==> (r2 matches Ok(n2) ==> n1 <= n2),
        r1 is Err ==> r2 is Err,
{
    if let Ok(n2) = r2 {
        lemma_accepts_lower(challenge, d1, d2, n2 as nat);
    }
}

/// There is only one least nonce.
pub proof fn lemma_least_nonce_unique(challenge: Seq<u8>, difficulty: nat, n1: nat, n2: nat)
    requires
        is_least_nonce(challenge, difficulty, n1),
        is_least_nonce(challenge, difficulty, n2),
    ensures
        n1 == n2,
{
}

/// The search outcome is determined by the challenge and the difficulty.
pub proof fn lemma_search_deterministic(
    challenge: Seq<u8>,
    difficulty: nat,
    r1: Result<u64, PowError>,
    r2: Result<u64, PowError>,
)
    requires
        search_outcome(challenge, difficulty, r1),
        search_outcome(challenge, difficulty, r2),
    ensures
        r1 == r2,
{
    if let (Ok(n1), Ok(n2)) = (r1, r2) {
        lemma_least_nonce_unique(challenge, difficulty, n1 as nat, n2 as nat);
    }
}

/// Two solutions of the same challenge at the same difficulty agree: both
/// fail with `Exhausted`, or both give the same text.
pub proof fn lemma_solve_deterministic(
    challenge: Seq<u8>,
    difficulty: nat,
    r1: Result<String, PowError>,
    r2: Result<String, PowError>,
)
    requires
        text_outcome(challenge, difficulty, r1),
        text_outcome(challenge, difficulty, r2),
    ensures
        r1 is Ok <==> r2 is Ok,
        r1 matches Ok(s1) ==> (r2 matches Ok(s2) ==> s1@ == s2@),
{
    if let (Ok(s1), Ok(s2)) = (r1, r2) {
        let n1 = choose|n: u64| #[trigger] is_least_nonce(challenge, difficulty, n as nat) && s1@ == decimal_text(n as nat);
        let n2 = choose|n: u64| #[trigger] is_least_nonce(challenge, difficulty, n as nat) && s2@ == decimal_text(n as nat);
        lemma_least_nonce_unique(challenge, difficulty, n1 as nat, n2 as nat);
    }
    if let (Ok(s1), Err(_)) = (r1, r2) {
        let n1 = choose|n: u64| #[trigger] is_least_nonce(challenge, difficulty, n as nat) && s1@ == decimal_text(n as nat);
        assert(accepts(challenge, difficulty, n1 as nat));
    }
    if let (Err(_), Ok(s2)) = (r1, r2) {
        let n2 = choose|n: u64| #[trigger] is_least_nonce(challenge, difficulty, n as nat) && s2@ == decimal_text(n as nat);
        assert(accepts(challenge, difficulty, n2 as nat));
    }
}

} // verus!
