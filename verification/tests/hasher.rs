use terminator::hasher::{digest_or_failure, matched};
use terminator::{hash, verify, HashingFailure, HASH_COST};

#[test]
fn a_digest_verifies_the_password_it_was_made_from() {
    let digest = hash("Abcdefghi1!").expect("a digest");
    assert!(verify("Abcdefghi1!", &digest));
}

#[test]
fn a_digest_refuses_another_password() {
    let digest = hash("Abcdefghi1!").expect("a digest");
    assert!(!verify("Abcdefghi1?", &digest));
    assert!(!verify("abcdefghi1!", &digest));
    assert!(!verify("", &digest));
}

#[test]
fn a_digest_is_not_the_password() {
    let digest = hash("Abcdefghi1!").expect("a digest");
    assert_ne!(digest, "Abcdefghi1!");
    assert!(!digest.contains("Abcdefghi1!"));
    assert_eq!(digest.len(), 60);
}

#[test]
fn a_digest_carries_the_work_factor() {
    assert_eq!(HASH_COST, 12);
    assert_eq!(HASH_COST, bcrypt::DEFAULT_COST);
    let digest = hash("Abcdefghi1!").expect("a digest");
    assert!(digest.starts_with("$2b$12$"), "{digest}");
}

#[test]
fn digests_are_salted() {
    let first = hash("Abcdefghi1!").expect("a digest");
    let second = hash("Abcdefghi1!").expect("a digest");
    assert_ne!(first, second);
    assert!(verify("Abcdefghi1!", &first));
    assert!(verify("Abcdefghi1!", &second));
}

#[test]
fn a_malformed_digest_matches_nothing() {
    assert!(!verify("Abcdefghi1!", ""));
    assert!(!verify("Abcdefghi1!", "Abcdefghi1!"));
    assert!(!verify("Abcdefghi1!", "$2b$12$tooshort"));
    assert!(!verify("", ""));
    // sixty characters, but no digest
    assert!(!verify("Abcdefghi1!", &"x".repeat(60)));
    // a work factor out of range
    assert!(!verify("Abcdefghi1!", "$2b$99$L6Bc/AlTQHyd9liGgGEZyOFLPHNgyxeEPfgYfBCVxJ7JIlwxyVU3u"));
    // not ASCII
    assert!(!verify("Abcdefghi1!", &"é".repeat(30)));
}

#[test]
fn a_known_digest_is_verified() {
    let digest = "$2y$05$bvIG6Nmid91Mu9RcmmWZfO5HJIMCT8riNW0hEp8f6/FuA2/mHZFpe";
    assert!(verify("password", digest));
    assert!(!verify("Password", digest));
}

#[test]
fn verify_agrees_with_the_hashing_crate() {
    let digest = "$2y$05$bvIG6Nmid91Mu9RcmmWZfO5HJIMCT8riNW0hEp8f6/FuA2/mHZFpe";
    for candidate in ["password", "Password", ""] {
        assert_eq!(verify(candidate, digest), bcrypt::verify(candidate, digest).unwrap());
    }
    assert!(bcrypt::verify("password", "no digest").is_err());
    assert!(!verify("password", "no digest"));
}

#[test]
fn only_a_clear_yes_counts_as_a_match() {
    assert!(matched(Some(true)));
    assert!(!matched(Some(false)));
    assert!(!matched(None));
}

#[test]
fn passwords_that_agree_in_their_first_72_bytes_share_their_digests() {
    let stem = "Ab1!".repeat(18);
    assert_eq!(stem.len(), 72);
    let one = format!("{stem}x");
    let other = format!("{stem}y");
    let digest = hash(&one).expect("a digest");
    assert!(verify(&one, &digest));
    assert!(verify(&other, &digest));
}

#[test]
fn a_missing_digest_is_a_hashing_failure() {
    assert_eq!(digest_or_failure(None), Err(HashingFailure));
    assert_eq!(digest_or_failure(Some("digest".to_string())), Ok("digest".to_string()));
    assert_eq!(digest_or_failure(Some(String::new())), Ok(String::new()));
}
