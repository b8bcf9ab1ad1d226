//! The password policy: which candidate passwords are strong enough, and
//! which requirements a weak one leaves unmet.
//!
//! Uppercase letters and special characters are the few characters named
//! here. What counts as a decimal digit is left to the digit class of the
//! `regex` crate, which knows the digits of every script.

use regex::Regex;
use vstd::prelude::*;
use vstd::std_specs::iter::IteratorSpec;

verus! {

/// Fewest characters an acceptable password has.
pub const MIN_PASSWORD_LENGTH: usize = 10;

/// A requirement of the password policy that a candidate leaves unmet.
#[derive(Clone, Copy, Debug, PartialEq, Eq, Structural)]
pub enum PolicyViolation {
    /// Fewer than [`MIN_PASSWORD_LENGTH`] characters.
    TooShort,
    /// No letter from `A` to `Z`.
    NoUppercase,
    /// No decimal digit.
    NoDigit,
    /// None of `! @ # $ % ^ & *`.
    NoSpecialChar,
}

/// An uppercase letter: one of `A` to `Z`.
pub open spec fn is_uppercase(c: char) -> bool {
    'A' <= c <= 'Z'
}

/// A special character: one of `! @ # $ % ^ & *`.
pub open spec fn is_special(c: char) -> bool {
    c == '!' || c == '@' || c == '#' || c == '$' || c == '%' || c == '^' || c == '&' || c == '*'
}

/// Some character of `text` is an uppercase letter.
pub open spec fn has_uppercase(text: Seq<char>) -> bool {
    exists|i: int| 0 <= i < text.len() && is_uppercase(#[trigger] text[i])
}

/// Some character of `text` is a special character.
pub open spec fn has_special(text: Seq<char>) -> bool {
    exists|i: int| 0 <= i < text.len() && is_special(#[trigger] text[i])
}

/// Whether `c` is an uppercase letter.
fn uppercase_letter(c: char) -> (yes: bool)
    ensures
        yes == is_uppercase(c),
{
    'A' <= c && c <= 'Z'
}

/// Whether `c` is a special character.
fn special_character(c: char) -> (yes: bool)
    ensures
        yes == is_special(c),
{
    c == '!' || c == '@' || c == '#' || c == '$' || c == '%' || c == '^' || c == '&' || c == '*'
}

/// Looks through `text` once for an uppercase letter and for a special character.
fn scan(text: &str) -> (seen: (bool, bool))
    ensures
        seen.0 == has_uppercase(text@),
        seen.1 == has_special(text@),
{
    let mut uppercase = false;
    let mut special = false;
    for c in it: text.chars()
        invariant
            it.seq() == text@,
            uppercase == exists|i: int| 0 <= i < it.index() && is_uppercase(#[trigger] text@[i]),
            special == exists|i: int| 0 <= i < it.index() && is_special(#[trigger] text@[i]),
    {
        if uppercase_letter(c) {
            uppercase = true;
        }
        if special_character(c) {
            special = true;
        }
    }
    (uppercase, special)
}

/// The regular expression of the digit class: a decimal digit of any script.
pub const DIGIT_PATTERN: &'static str = "\\d";

/// What the `regex` crate answers when the regular expression `pattern` is
/// searched for in `text`: `Some(found)`, or `None` where the crate does not
/// accept `pattern` as a regular expression.
pub uninterp spec fn regex_search(pattern: Seq<char>, text: Seq<char>) -> Option<bool>;

/// Compiles `pattern` with `regex::Regex::new` and asks `regex::Regex::is_match`
/// whether it matches anywhere in `text`.
///
/// Trusted, not proved: the answer depends on the two strings alone, so it is
/// the value that [`regex_search`] names for them. Nothing is claimed about
/// which patterns compile or which texts match.
#[verifier::external_body]
fn search(pattern: &str, text: &str) -> (found: Option<bool>)
    ensures
        found == regex_search(pattern@, text@),
{
    match Regex::new(pattern) {
        Ok(expression) => Some(expression.is_match(text)),
        Err(_) => None,
    }
}

/// Some character of `text` is a decimal digit: the digit class matches in it.
pub open spec fn has_digit(text: Seq<char>) -> bool {
    regex_search(DIGIT_PATTERN@, text) == Some(true)
}

/// The requirements left unmet, in the order length, uppercase, digit,
/// special character, given which of the four are met.
pub open spec fn unmet(long_enough: bool, uppercase: bool, digit: bool, special: bool) -> Seq<
    PolicyViolation,
> {
    (if long_enough {
        Seq::<PolicyViolation>::empty()
    } else {
        seq![PolicyViolation::TooShort]
    }) + (if uppercase {
        Seq::<PolicyViolation>::empty()
    } else {
        seq![PolicyViolation::NoUppercase]
    }) + (if digit {
        Seq::<PolicyViolation>::empty()
    } else {
        seq![PolicyViolation::NoDigit]
    }) + (if special {
        Seq::<PolicyViolation>::empty()
    } else {
        seq![PolicyViolation::NoSpecialChar]
    })
}

/// Every requirement that the candidate `text` leaves unmet.
pub open spec fn violations(text: Seq<char>) -> Seq<PolicyViolation> {
    unmet(
        text.len() >= MIN_PASSWORD_LENGTH,
        has_uppercase(text),
        has_digit(text),
        has_special(text),
    )
}

/// The policy: at least [`MIN_PASSWORD_LENGTH`] characters, an uppercase
/// letter, a decimal digit and a special character.
pub open spec fn is_acceptable(text: Seq<char>) -> bool {
    &&& text.len() >= MIN_PASSWORD_LENGTH
    &&& has_uppercase(text)
    &&& has_digit(text)
    &&& has_special(text)
}

/// Lists the unmet requirements, given which of the four are met.
pub fn unmet_requirements(long_enough: bool, uppercase: bool, digit: bool, special: bool) -> (list:
    Vec<PolicyViolation>)
    ensures
        list@ == unmet(long_enough, uppercase, digit, special),
{
    let mut list: Vec<PolicyViolation> = Vec::new();
    if !long_enough {
        list.push(PolicyViolation::TooShort);
    }
    if !uppercase {
        list.push(PolicyViolation::NoUppercase);
    }
    if !digit {
        list.push(PolicyViolation::NoDigit);
    }
    if !special {
        list.push(PolicyViolation::NoSpecialChar);
    }
    list
}

/// Every requirement of the policy that `password` leaves unmet; none exactly
/// when the password is acceptable.
pub fn policy_violations(password: &str) -> (list: Vec<PolicyViolation>)
    ensures
        list@ == violations(password@),
        list@.len() == 0 <==> is_acceptable(password@),
{
    let long_enough = password.unicode_len() >= MIN_PASSWORD_LENGTH;
    let seen = scan(password);
    let digit = match search(DIGIT_PATTERN, password) {
        Some(found) => found,
        None => false,
    };
    unmet_requirements(long_enough, seen.0, digit, seen.1)
}

/// A password is acceptable exactly when no requirement is unmet; each
/// requirement is listed exactly when it is unmet, and none twice.
pub proof fn lemma_violations_are_the_unmet_requirements(text: Seq<char>)
    ensures
        violations(text).len() == 0 <==> is_acceptable(text),
        violations(text).contains(PolicyViolation::TooShort) <==> text.len() < MIN_PASSWORD_LENGTH,
        violations(text).contains(PolicyViolation::NoUppercase) <==> !has_uppercase(text),
        violations(text).contains(PolicyViolation::NoDigit) <==> !has_digit(text),
        violations(text).contains(PolicyViolation::NoSpecialChar) <==> !has_special(text),
        violations(text).no_duplicates(),
{
    let long_enough = text.len() >= MIN_PASSWORD_LENGTH;
    let list = violations(text);
    if !long_enough {
        assert(list[0] == PolicyViolation::TooShort);
    }
    if !has_uppercase(text) {
        let at = if long_enough { 0int } else { 1int };
        assert(list[at] == PolicyViolation::NoUppercase);
    }
    if !has_digit(text) {
        let at = (if long_enough { 0int } else { 1int }) + (if has_uppercase(text) { 0int } else { 1int });
        assert(list[at] == PolicyViolation::NoDigit);
    }
    if !has_special(text) {
        assert(list[list.len() - 1] == PolicyViolation::NoSpecialChar);
    }
}

} // verus!
