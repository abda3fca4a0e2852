//! Password rules: what a new password must contain.
use vstd::prelude::*;
use inquire::validator::StringValidator;
use crate::models::{spec_argon2_verifies, spec_password_hash_parses};
use crate::models::user::User;
use crate::text::{
    is_ascii_digit_spec, is_ascii_lower_spec, is_ascii_punct_spec, is_ascii_upper_spec, str_chars,
};

verus! {

broadcast use vstd::string::group_string_axioms;

pub open spec fn has_digit(s: Seq<char>) -> bool {
    exists|i: int| 0 <= i < s.len() && is_ascii_digit_spec(#[trigger] s[i])
}

pub open spec fn has_upper(s: Seq<char>) -> bool {
    exists|i: int| 0 <= i < s.len() && is_ascii_upper_spec(#[trigger] s[i])
}

pub open spec fn has_lower(s: Seq<char>) -> bool {
    exists|i: int| 0 <= i < s.len() && is_ascii_lower_spec(#[trigger] s[i])
}

pub open spec fn has_special(s: Seq<char>) -> bool {
    exists|i: int| 0 <= i < s.len() && is_ascii_punct_spec(#[trigger] s[i])
}

/// Which character class a check looks for.
#[derive(Clone, Copy, Debug, PartialEq, Eq, Structural)]
pub enum CharClass {
    Digit,
    Upper,
    Lower,
    Special,
}

pub open spec fn in_class(c: char, k: CharClass) -> bool {
    match k {
        CharClass::Digit => is_ascii_digit_spec(c),
        CharClass::Upper => is_ascii_upper_spec(c),
        CharClass::Lower => is_ascii_lower_spec(c),
        CharClass::Special => is_ascii_punct_spec(c),
    }
}

pub open spec fn has_class(s: Seq<char>, k: CharClass) -> bool {
    exists|i: int| 0 <= i < s.len() && in_class(#[trigger] s[i], k)
}

fn char_in_class(c: char, k: CharClass) -> (r: bool)
    ensures
        r == in_class(c, k),
{
    let u = c as u32;
    match k {
        CharClass::Digit => 48 <= u && u <= 57,
        CharClass::Upper => 65 <= u && u <= 90,
        CharClass::Lower => 97 <= u && u <= 122,
        CharClass::Special => (33 <= u && u <= 47) || (58 <= u && u <= 64) || (91 <= u && u <= 96)
            || (123 <= u && u <= 126),
    }
}

/// Whether some character of `input` is in the class.
pub fn contains_class(input: &str, k: CharClass) -> (r: bool)
    ensures
        r == has_class(input@, k),
{
    let cs = str_chars(input);
    let mut i: usize = 0;
    while i < cs.len()
        invariant
            i <= cs.len(),
            cs@ == input@,
            forall|j: int| 0 <= j < i ==> !in_class(#[trigger] cs@[j], k),
        decreases cs.len() - i,
    {
        if char_in_class(cs[i], k) {
            return true;
        }
        i = i + 1;
    }
    false
}

/// The outcome of a check on a typed text: accepted, or refused with the message
/// shown to the user.
#[derive(Debug, PartialEq, Eq)]
pub enum Validation {
    Valid,
    Invalid(String),
}

impl Validation {
    /// Whether the text was accepted.
    pub fn is_valid(&self) -> (r: bool)
        ensures
            r == (*self is Valid),
    {
        match self {
            Validation::Valid => true,
            Validation::Invalid(_) => false,
        }
    }
}

pub open spec fn validation_is(v: Validation, ok: bool, message: Seq<char>) -> bool {
    if ok {
        v == Validation::Valid
    } else {
        v matches Validation::Invalid(m) && m@ == message
    }
}

fn outcome(ok: bool, message: &str) -> (v: Validation)
    ensures
        validation_is(v, ok, message@),
{
    if ok {
        Validation::Valid
    } else {
        Validation::Invalid(message.to_string())
    }
}

/// At least one digit `0-9` is required.
pub struct HasDigitValidator;

/// At least one uppercase letter `A-Z` is required.
pub struct HasUppercaseValidator;

/// At least one lowercase letter `a-z` is required.
pub struct HasLowercaseValidator;

/// At least one ASCII punctuation character (such as `!@#$%^&*`) is required.
pub struct HasSpecialCharValidator;

impl HasDigitValidator {
    pub fn validate(&self, input: &str) -> (v: Validation)
        ensures
            validation_is(v, has_digit(input@), "At least one digit (0-9) is required"@),
    {
        let ok = contains_class(input, CharClass::Digit);
        assert(has_class(input@, CharClass::Digit) == has_digit(input@));
        outcome(ok, "At least one digit (0-9) is required")
    }
}

impl HasUppercaseValidator {
    pub fn validate(&self, input: &str) -> (v: Validation)
        ensures
            validation_is(v, has_upper(input@), "At least one uppercase letter (A-Z) is required"@),
    {
        let ok = contains_class(input, CharClass::Upper);
        assert(has_class(input@, CharClass::Upper) == has_upper(input@));
        outcome(ok, "At least one uppercase letter (A-Z) is required")
    }
}

impl HasLowercaseValidator {
    pub fn validate(&self, input: &str) -> (v: Validation)
        ensures
            validation_is(v, has_lower(input@), "At least one lowercase letter (a-z) is required"@),
    {
        let ok = contains_class(input, CharClass::Lower);
        assert(has_class(input@, CharClass::Lower) == has_lower(input@));
        outcome(ok, "At least one lowercase letter (a-z) is required")
    }
}

impl HasSpecialCharValidator {
    pub fn validate(&self, input: &str) -> (v: Validation)
        ensures
            validation_is(
                v,
                has_special(input@),
                "At least one special character (e.g., !@#$%^&*) is required"@,
            ),
    {
        let ok = contains_class(input, CharClass::Special);
        assert(has_class(input@, CharClass::Special) == has_special(input@));
        outcome(ok, "At least one special character (e.g., !@#$%^&*) is required")
    }
}

/// A new password must differ from the user's current one.
pub struct OldPasswordValidator(pub User);

/// The password is the user's current one.
pub open spec fn is_current_password(u: User, input: Seq<char>) -> bool {
    u.hash() matches Some(h) && spec_password_hash_parses(h) && spec_argon2_verifies(h, input)
}

impl OldPasswordValidator {
    pub fn validate(&self, input: &str) -> (v: Validation)
        ensures
            validation_is(
                v,
                !is_current_password(self.0, input@),
                "The new password cannot be the same as the original password"@,
            ),
    {
        outcome(
            !self.0.verify_password(input),
            "The new password cannot be the same as the original password",
        )
    }
}

/// Whether `inquire`'s `MinLengthValidator` with `limit` accepts a text (it counts
/// grapheme clusters).
pub uninterp spec fn spec_min_length_accepts(s: Seq<char>, limit: usize) -> bool;

/// `MinLengthValidator::new(limit).validate(input)` returns `Valid`. Claimed: the
/// named acceptance.
#[verifier::external_body]
fn min_length_accepts(input: &str, limit: usize) -> (r: bool)
    ensures
        r == spec_min_length_accepts(input@, limit),
{
    matches!(
        inquire::validator::MinLengthValidator::new(limit).validate(input),
        Ok(inquire::validator::Validation::Valid)
    )
}

/// At least that many characters (user-perceived characters) are required.
pub struct MinLengthValidator(pub usize);

impl MinLengthValidator {
    /// Whether the text is long enough.
    pub fn accepts(&self, input: &str) -> (r: bool)
        ensures
            r == spec_min_length_accepts(input@, self.0),
    {
        min_length_accepts(input, self.0)
    }
}

/// The rules for a new password: at least 8 characters, a digit, an uppercase and a
/// lowercase letter, and a punctuation character.
pub open spec fn password_acceptable(s: Seq<char>) -> bool {
    &&& spec_min_length_accepts(s, 8)
    &&& has_digit(s)
    &&& has_upper(s)
    &&& has_lower(s)
    &&& has_special(s)
}

/// Whether a new password satisfies all the rules.
pub fn validate_all(input: &str) -> (r: bool)
    ensures
        r == password_acceptable(input@),
{
    MinLengthValidator(8).accepts(input) && HasDigitValidator.validate(input).is_valid()
        && HasUppercaseValidator.validate(input).is_valid()
        && HasLowercaseValidator.validate(input).is_valid()
        && HasSpecialCharValidator.validate(input).is_valid()
}

/// Whether `input` may replace `user`'s password: it satisfies all the rules and is
/// not the current password.
pub fn new_password_acceptable(user: &User, input: &str) -> (r: bool)
    ensures
        r == (password_acceptable(input@) && !is_current_password(*user, input@)),
{
    validate_all(input) && !user.verify_password(input)
}

/// A new password is accepted exactly when the length rule accepts it and it holds
/// an uppercase letter `A`-`Z`, a lowercase letter `a`-`z`, a digit `0`-`9`, and an
/// ASCII punctuation character.
pub proof fn law_accepted_password_classes(s: Seq<char>)
    ensures
        password_acceptable(s) <==> {
            &&& spec_min_length_accepts(s, 8)
            &&& exists|i: int| 0 <= i < s.len() && 65 <= (#[trigger] s[i] as u32) <= 90
            &&& exists|i: int| 0 <= i < s.len() && 97 <= (#[trigger] s[i] as u32) <= 122
            &&& exists|i: int| 0 <= i < s.len() && 48 <= (#[trigger] s[i] as u32) <= 57
            &&& exists|i: int|
                0 <= i < s.len() && ((33 <= (#[trigger] s[i] as u32) <= 47) || (58 <= (s[i] as u32) <= 64)
                    || (91 <= (s[i] as u32) <= 96) || (123 <= (s[i] as u32) <= 126))
        },
{
    if has_upper(s) {
        let i = choose|i: int| 0 <= i < s.len() && is_ascii_upper_spec(#[trigger] s[i]);
        assert(65 <= (s[i] as u32) <= 90);
    }
    if has_lower(s) {
        let i = choose|i: int| 0 <= i < s.len() && is_ascii_lower_spec(#[trigger] s[i]);
        assert(97 <= (s[i] as u32) <= 122);
    }
    if has_digit(s) {
        let i = choose|i: int| 0 <= i < s.len() && is_ascii_digit_spec(#[trigger] s[i]);
        assert(48 <= (s[i] as u32) <= 57);
    }
    if has_special(s) {
        let i = choose|i: int| 0 <= i < s.len() && is_ascii_punct_spec(#[trigger] s[i]);
        assert(is_ascii_punct_spec(s[i]));
    }
    if exists|i: int| 0 <= i < s.len() && 65 <= (#[trigger] s[i] as u32) <= 90 {
        let i = choose|i: int| 0 <= i < s.len() && 65 <= (#[trigger] s[i] as u32) <= 90;
        assert(is_ascii_upper_spec(s[i]));
    }
    if exists|i: int| 0 <= i < s.len() && 97 <= (#[trigger] s[i] as u32) <= 122 {
        let i = choose|i: int| 0 <= i < s.len() && 97 <= (#[trigger] s[i] as u32) <= 122;
        assert(is_ascii_lower_spec(s[i]));
    }
    if exists|i: int| 0 <= i < s.len() && 48 <= (#[trigger] s[i] as u32) <= 57 {
        let i = choose|i: int| 0 <= i < s.len() && 48 <= (#[trigger] s[i] as u32) <= 57;
        assert(is_ascii_digit_spec(s[i]));
    }
    if exists|i: int|
        0 <= i < s.len() && ((33 <= (#[trigger] s[i] as u32) <= 47) || (58 <= (s[i] as u32) <= 64)
            || (91 <= (s[i] as u32) <= 96) || (123 <= (s[i] as u32) <= 126)) {
        let i = choose|i: int|
            0 <= i < s.len() && ((33 <= (#[trigger] s[i] as u32) <= 47) || (58 <= (s[i] as u32) <= 64)
                || (91 <= (s[i] as u32) <= 96) || (123 <= (s[i] as u32) <= 126));
        assert(is_ascii_punct_spec(s[i]));
    }
}

} // verus!
