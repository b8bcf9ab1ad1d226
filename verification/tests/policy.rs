use regex::Regex;
use terminator::policy::DIGIT_PATTERN;
use terminator::{policy_violations, unmet_requirements, PolicyViolation, User, MIN_PASSWORD_LENGTH};

#[test]
fn accepts_a_password_that_meets_every_requirement() {
    assert!(User::is_valid_password("Abcdefghi1!"));
    assert_eq!(policy_violations("Abcdefghi1!"), vec![]);
}

#[test]
fn rejects_a_password_of_lowercase_letters_only() {
    assert!(!User::is_valid_password("abcdefghij"));
    assert_eq!(
        policy_violations("abcdefghij"),
        vec![
            PolicyViolation::NoUppercase,
            PolicyViolation::NoDigit,
            PolicyViolation::NoSpecialChar
        ]
    );
}

#[test]
fn rejects_a_password_without_special_character() {
    assert!(!User::is_valid_password("ABCDEFGHIJ1"));
    assert_eq!(policy_violations("ABCDEFGHIJ1"), vec![PolicyViolation::NoSpecialChar]);
}

#[test]
fn rejects_a_password_that_is_too_short() {
    assert!(!User::is_valid_password("Ab1!"));
    assert_eq!(policy_violations("Ab1!"), vec![PolicyViolation::TooShort]);
}

#[test]
fn rejects_the_empty_password_on_every_count() {
    assert!(!User::is_valid_password(""));
    assert_eq!(
        policy_violations(""),
        vec![
            PolicyViolation::TooShort,
            PolicyViolation::NoUppercase,
            PolicyViolation::NoDigit,
            PolicyViolation::NoSpecialChar
        ]
    );
}

#[test]
fn rejects_every_password_shorter_than_ten_characters() {
    let mut candidate = String::new();
    for c in "A1!bcdefg".chars() {
        candidate.push(c);
        assert!(candidate.chars().count() < 10);
        assert!(!User::is_valid_password(&candidate), "{candidate}");
        assert!(policy_violations(&candidate).contains(&PolicyViolation::TooShort));
    }
    candidate.push('h');
    assert!(User::is_valid_password(&candidate));
}

#[test]
fn the_length_bound_is_ten_characters() {
    assert_eq!(MIN_PASSWORD_LENGTH, 10);
    assert_eq!(policy_violations("Abcdefg1!"), vec![PolicyViolation::TooShort]);
    assert_eq!(policy_violations("Abcdefgh1!"), vec![]);
}

#[test]
fn length_counts_characters_not_bytes() {
    // eight characters in ten bytes
    assert_eq!("ééAbcd1!".len(), 10);
    assert_eq!(policy_violations("ééAbcd1!"), vec![PolicyViolation::TooShort]);
    // ten characters in twelve bytes
    assert_eq!(policy_violations("ééAbcdef1!"), vec![]);
}

#[test]
fn each_special_character_satisfies_the_policy() {
    for c in "!@#$%^&*".chars() {
        let candidate = format!("Abcdefghi1{c}");
        assert!(User::is_valid_password(&candidate), "{candidate}");
    }
}

#[test]
fn other_punctuation_is_not_special() {
    for c in "?()-_+=.,;:'\"/\\|~`<>[]{} ".chars() {
        let candidate = format!("Abcdefghi1{c}");
        assert_eq!(
            policy_violations(&candidate),
            vec![PolicyViolation::NoSpecialChar],
            "{candidate}"
        );
    }
}

#[test]
fn only_the_letters_a_to_z_count_as_uppercase() {
    assert_eq!(policy_violations("Éabcdefgh1!"), vec![PolicyViolation::NoUppercase]);
    assert_eq!(policy_violations("@abcdefgh1!"), vec![PolicyViolation::NoUppercase]);
    assert_eq!(policy_violations("[abcdefgh1!"), vec![PolicyViolation::NoUppercase]);
    assert_eq!(policy_violations("Aabcdefgh1!"), vec![]);
    assert_eq!(policy_violations("Zabcdefgh1!"), vec![]);
}

#[test]
fn a_digit_of_any_script_counts_as_a_digit() {
    assert_eq!(policy_violations("Abcdefghi!"), vec![PolicyViolation::NoDigit]);
    assert_eq!(policy_violations("Abcdefghi!0"), vec![]);
    assert_eq!(policy_violations("Abcdefghi!9"), vec![]);
    // ARABIC-INDIC DIGIT THREE
    assert_eq!(policy_violations("Abcdefghi!\u{0663}"), vec![]);
    // VULGAR FRACTION ONE HALF and ROMAN NUMERAL EIGHT are numbers, not digits
    assert_eq!(policy_violations("Abcdefghi!\u{00BD}"), vec![PolicyViolation::NoDigit]);
    assert_eq!(policy_violations("Abcdefghi!\u{2167}"), vec![PolicyViolation::NoDigit]);
}

/// ASCII and Latin-1, then Arabic, Devanagari and the fullwidth forms.
fn sample_characters() -> Vec<char> {
    let mut sample = Vec::new();
    for range in [0u32..0x100, 0x600..0x700, 0x900..0x980, 0xFF00..0xFF40] {
        for code in range {
            if let Some(c) = char::from_u32(code) {
                sample.push(c);
            }
        }
    }
    sample
}

#[test]
fn the_digit_class_is_what_the_digit_pattern_matches() {
    assert_eq!(DIGIT_PATTERN, r"\d");
    let digit = Regex::new(DIGIT_PATTERN).unwrap();
    let mut digits = 0;
    for c in sample_characters() {
        let text = c.to_string();
        let missing = policy_violations(&text).contains(&PolicyViolation::NoDigit);
        assert_eq!(!missing, digit.is_match(&text), "{c:?}");
        if !missing {
            digits += 1;
        }
    }
    // 0-9, and the digits of four more scripts in the sample
    assert_eq!(digits, 50);
}

#[test]
fn the_character_classes_agree_with_their_regular_expressions() {
    let uppercase = Regex::new(r"[A-Z]").unwrap();
    let special = Regex::new(r"[!@#$%^&*]").unwrap();
    for c in sample_characters() {
        let text = c.to_string();
        let unmet = policy_violations(&text);
        assert_eq!(
            !unmet.contains(&PolicyViolation::NoUppercase),
            uppercase.is_match(&text),
            "{c:?}"
        );
        assert_eq!(
            !unmet.contains(&PolicyViolation::NoSpecialChar),
            special.is_match(&text),
            "{c:?}"
        );
    }
}

#[test]
fn the_position_of_a_character_does_not_matter() {
    assert!(User::is_valid_password("1!abcdefghA"));
    assert!(User::is_valid_password("abcd!A1efgh"));
    assert!(User::is_valid_password("!abcdefghA1"));
}

#[test]
fn unmet_requirements_lists_what_is_not_met_in_order() {
    assert_eq!(unmet_requirements(true, true, true, true), vec![]);
    assert_eq!(
        unmet_requirements(false, false, false, false),
        vec![
            PolicyViolation::TooShort,
            PolicyViolation::NoUppercase,
            PolicyViolation::NoDigit,
            PolicyViolation::NoSpecialChar
        ]
    );
    assert_eq!(unmet_requirements(false, true, true, true), vec![PolicyViolation::TooShort]);
    assert_eq!(unmet_requirements(true, false, true, true), vec![PolicyViolation::NoUppercase]);
    assert_eq!(unmet_requirements(true, true, false, true), vec![PolicyViolation::NoDigit]);
    assert_eq!(unmet_requirements(true, true, true, false), vec![PolicyViolation::NoSpecialChar]);
    assert_eq!(
        unmet_requirements(false, true, false, true),
        vec![PolicyViolation::TooShort, PolicyViolation::NoDigit]
    );
}

#[test]
fn a_password_is_valid_exactly_when_nothing_is_unmet() {
    for candidate in ["Abcdefghi1!", "abcdefghij", "ABCDEFGHIJ1", "Ab1!", "", "Newpassw0rd!"] {
        assert_eq!(
            User::is_valid_password(candidate),
            policy_violations(candidate).is_empty(),
            "{candidate}"
        );
    }
}

#[test]
fn create_password_accepts_a_valid_candidate() {
    assert_eq!(
        User::create_password(Some("Abcdefghi1!".to_string())),
        Some("Abcdefghi1!".to_string())
    );
}

#[test]
fn create_password_asks_again_for_a_weak_candidate() {
    assert_eq!(User::create_password(Some("abcdefghij".to_string())), None);
    assert_eq!(User::create_password(Some("Ab1!".to_string())), None);
    assert_eq!(User::create_password(Some(String::new())), None);
}

#[test]
fn create_password_asks_when_there_is_no_candidate() {
    assert_eq!(User::create_password(None), None);
}
