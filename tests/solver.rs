use pow_solver::decimal::{decimal_bytes, decimal_string};
use pow_solver::solver::has_zero_prefix;
use pow_solver::{meets_difficulty, solve_nonce, solve_pow, PowError};
use sha2::{Digest, Sha256};

fn hex_digest(challenge: &str, n: u64) -> String {
    hex::encode(Sha256::digest(format!("{challenge}{n}").as_bytes()))
}

fn zeros(difficulty: u32) -> String {
    "0".repeat(difficulty as usize)
}

fn solved(challenge: &str, difficulty: u32) -> u64 {
    solve_pow(challenge, difficulty).unwrap().parse().unwrap()
}

#[test]
fn zero_difficulty_gives_zero() {
    assert_eq!(solve_pow("abc", 0), Ok("0".to_string()));
    for c in ["", "x", "challenge-123", "é漢"] {
        assert_eq!(solve_pow(c, 0), Ok("0".to_string()));
        assert_eq!(solve_nonce(c.as_bytes(), 0), Ok(0));
    }
}

#[test]
fn empty_challenge_difficulty_one() {
    let mut expected: u64 = 0;
    while !hex_digest("", expected).starts_with("0") {
        expected += 1;
    }
    assert_eq!(solve_pow("", 1), Ok(expected.to_string()));
}

#[test]
fn result_meets_difficulty_and_is_least() {
    for c in ["hello", "", "a b c", "ünïcode"] {
        for d in 0..=3u32 {
            let n = solved(c, d);
            assert!(hex_digest(c, n).starts_with(&zeros(d)));
            for m in 0..n {
                assert!(!hex_digest(c, m).starts_with(&zeros(d)));
            }
        }
    }
}

#[test]
fn harder_difficulty_not_earlier() {
    for c in ["xyz", "proof", ""] {
        let mut last: u64 = 0;
        for d in 0..=3u32 {
            let n = solved(c, d);
            assert!(n >= last);
            last = n;
        }
    }
}

#[test]
fn same_input_same_answer() {
    for d in 0..=3u32 {
        assert_eq!(solve_pow("repeat", d), solve_pow("repeat", d));
    }
}

#[test]
fn text_and_number_agree() {
    for d in 0..=2u32 {
        let n = solve_nonce("agree".as_bytes(), d).unwrap();
        assert_eq!(solve_pow("agree", d), Ok(n.to_string()));
    }
}

#[test]
fn full_length_prefix() {
    let zero = [0u8; 32];
    assert!(meets_difficulty(&zero, 64));
    assert!(!meets_difficulty(&zero, 65));
    let mut last_one = [0u8; 32];
    last_one[31] = 1;
    assert!(!meets_difficulty(&last_one, 64));
    assert!(meets_difficulty(&last_one, 63));
    let mut high_nibble = [0u8; 32];
    high_nibble[31] = 0x10;
    assert!(meets_difficulty(&high_nibble, 62));
    assert!(!meets_difficulty(&high_nibble, 63));
}

#[test]
fn digest_is_read_as_lowercase_hex() {
    assert!(meets_difficulty(&[0x0f], 1));
    assert!(!meets_difficulty(&[0x0f], 2));
    assert!(meets_difficulty(&[0x00, 0x0a], 3));
    assert!(!meets_difficulty(&[0x00, 0x0a], 4));
    assert!(meets_difficulty(&[], 0));
    assert!(!meets_difficulty(&[], 1));
    assert!(!meets_difficulty(&[0x30], 1));
}

#[test]
fn zero_prefix_of_text() {
    assert!(has_zero_prefix("", 0));
    assert!(!has_zero_prefix("", 1));
    assert!(has_zero_prefix("00a", 2));
    assert!(!has_zero_prefix("00a", 3));
    assert!(!has_zero_prefix("00", 3));
    assert!(!has_zero_prefix("a00", 1));
}

#[test]
fn decimal_forms() {
    assert_eq!(decimal_string(0), "0");
    assert_eq!(decimal_string(7), "7");
    assert_eq!(decimal_string(10), "10");
    assert_eq!(decimal_string(120), "120");
    assert_eq!(decimal_string(u64::MAX), "18446744073709551615");
    assert_eq!(decimal_bytes(0), b"0".to_vec());
    assert_eq!(decimal_bytes(4096), b"4096".to_vec());
    assert_eq!(decimal_bytes(u64::MAX), b"18446744073709551615".to_vec());
}

#[test]
fn digest_of_probe_is_sha256() {
    let n = solve_nonce("abc".as_bytes(), 2).unwrap();
    assert!(hex_digest("abc", n).starts_with("00"));
    for m in 0..n {
        assert!(!hex_digest("abc", m).starts_with("00"));
    }
    assert_eq!(PowError::Exhausted, PowError::Exhausted.clone());
}
