//! Stored records: targets, users and login secrets, with the checks they must pass
//! before they are saved.
use vstd::prelude::*;
use russh::keys::PublicKey;
use argon2::password_hash::PasswordVerifier;
use crate::policy::{max_secs, min_secs, utc_now, Timestamp};
use crate::roles::spec_parse_uuid;
use crate::text::{char_utf8_len, chars_to_string, str_chars, trim_chars, trim_spec, utf8_len};

pub mod target;
pub mod user;
pub mod target_secret;

verus! {

broadcast use vstd::string::group_string_axioms;

#[verifier::external_type_specification]
#[verifier::external_body]
pub struct ExPublicKey(PublicKey);

/// What `PublicKey::from_str` (OpenSSH format) gives for a text.
pub uninterp spec fn spec_parse_public_key(s: Seq<char>) -> Option<PublicKey>;

/// Whether two keys carry the same key data (`key_data() == key_data()`).
pub uninterp spec fn spec_same_key_data(a: PublicKey, b: PublicKey) -> bool;

/// Whether `PrivateKey::from_str` (OpenSSH format) accepts a text.
pub uninterp spec fn spec_private_key_parses(s: Seq<char>) -> bool;

/// Whether `argon2::PasswordHash::new` accepts a PHC string.
pub uninterp spec fn spec_password_hash_parses(h: Seq<char>) -> bool;

/// Whether Argon2 (default parameters) verifies a password against a PHC string.
pub uninterp spec fn spec_argon2_verifies(h: Seq<char>, password: Seq<char>) -> bool;

/// What compiling `pattern` with `regex::Regex::new` and matching `s` against it
/// gives: `None` when the pattern does not compile.
pub uninterp spec fn spec_regex_match(pattern: Seq<char>, s: Seq<char>) -> Option<bool>;

/// `PublicKey::from_str`. Claimed: the named parse.
#[verifier::external_body]
pub(crate) fn parse_public_key(s: &str) -> (r: Option<PublicKey>)
    ensures
        r == spec_parse_public_key(s@),
{
    s.parse::<PublicKey>().ok()
}

/// `a.key_data() == b.key_data()`. Claimed: the named comparison.
#[verifier::external_body]
fn same_key_data(a: &PublicKey, b: &PublicKey) -> (r: bool)
    ensures
        r == spec_same_key_data(*a, *b),
{
    a.key_data() == b.key_data()
}

/// `PrivateKey::from_str(s).is_ok()`. Claimed: the named acceptance.
#[verifier::external_body]
fn private_key_parses(s: &str) -> (r: bool)
    ensures
        r == spec_private_key_parses(s@),
{
    s.parse::<russh::keys::PrivateKey>().is_ok()
}

/// `PasswordHash::new(h).is_ok()`. Claimed: the named acceptance.
#[verifier::external_body]
fn password_hash_parses(h: &str) -> (r: bool)
    ensures
        r == spec_password_hash_parses(h@),
{
    argon2::password_hash::PasswordHash::new(h).is_ok()
}

/// `Argon2::default().verify_password(password, &PasswordHash::new(h)?)` succeeds.
/// Claimed: the named verification. `requires` leaves out hashes that do not parse.
#[verifier::external_body]
fn argon2_verify(h: &str, password: &str) -> (r: bool)
    requires
        spec_password_hash_parses(h@),
    ensures
        r == spec_argon2_verifies(h@, password@),
{
    let parsed = argon2::password_hash::PasswordHash::new(h).unwrap();
    argon2::Argon2::default().verify_password(password.as_bytes(), &parsed).is_ok()
}

/// Sixteen random bytes (`RngCore::fill_bytes` on the thread's generator). Nothing is
/// claimed of them.
#[verifier::external_body]
fn random_salt() -> (b: Vec<u8>)
    ensures
        b@.len() == 16,
{
    let mut salt = [0u8; 16];
    rand::RngCore::fill_bytes(&mut rand::rng(), &mut salt);
    salt.to_vec()
}

/// `Argon2::default().hash_password(password, &SaltString::encode_b64(salt)?)` as a
/// PHC string. Claimed of a result: it parses as a password hash and Argon2 verifies
/// `password` against it. `None` when the crate reports an error, which is not
/// described.
#[verifier::external_body]
fn argon2_hash(password: &str, salt: &Vec<u8>) -> (r: Option<String>)
    ensures
        r matches Some(h) ==> spec_password_hash_parses(h@) && spec_argon2_verifies(h@, password@),
{
    let salt = argon2::password_hash::SaltString::encode_b64(salt).ok()?;
    argon2::password_hash::PasswordHasher::hash_password(&argon2::Argon2::default(), password.as_bytes(), &salt)
        .ok()
        .map(|h| h.to_string())
}

/// A stored form of `password`: an Argon2 hash with a fresh random salt, which the
/// password then verifies against; `None` when hashing fails.
pub fn hash_password(password: &str) -> (r: Option<String>)
    ensures
        r matches Some(h) ==> spec_password_hash_parses(h@) && spec_argon2_verifies(h@, password@),
{
    let salt = random_salt();
    argon2_hash(password, &salt)
}

/// `Regex::new(pattern)` and `Regex::is_match(s)`. Claimed: the named outcome.
#[verifier::external_body]
fn regex_is_match(pattern: &str, s: &str) -> (r: Option<bool>)
    ensures
        r == spec_regex_match(pattern@, s@),
{
    match regex::Regex::new(pattern) {
        Ok(re) => Some(re.is_match(s)),
        Err(_) => None,
    }
}

/// The form an e-mail address must have.
pub const EMAIL_PATTERN: &'static str = "^\\w+([-+.']\\w+)*@\\w+([-.]\\w+)*\\.\\w+([-.]\\w+)*$";

/// The text has the form of an e-mail address.
pub open spec fn email_ok(s: Seq<char>) -> bool {
    spec_regex_match(EMAIL_PATTERN@, s) == Some(true)
}

/// Whether the text has the form of an e-mail address.
pub fn email_matches(s: &str) -> (r: bool)
    ensures
        r == email_ok(s@),
{
    match regex_is_match(EMAIL_PATTERN, s) {
        Some(b) => b,
        None => false,
    }
}

/// `Uuid::new_v4().to_string()`: a random identifier. Claimed of every outcome: it
/// parses back as an identifier.
#[verifier::external_body]
pub(crate) fn new_id() -> (s: String)
    ensures
        spec_parse_uuid(s@) is Some,
{
    uuid::Uuid::new_v4().to_string()
}

/// An instant that the clock can report: within chrono's range, with fewer than two
/// seconds' worth of nanoseconds (a leap second runs past one).
pub open spec fn clock_instant(t: Timestamp) -> bool {
    min_secs() <= t.secs <= max_secs() && t.nanos < 2_000_000_000
}

/// An instant in whole milliseconds since the Unix epoch (the nanoseconds rounded down).
pub open spec fn millis_of(t: Timestamp) -> int {
    t.secs * 1000 + t.nanos / 1_000_000
}

/// The current time in milliseconds since the Unix epoch: whatever instant the clock
/// reports, in whole milliseconds.
pub fn now_millis() -> (m: i64)
    ensures
        exists|t: Timestamp| clock_instant(t) && m == #[trigger] millis_of(t),
{
    let t = utc_now();
    assert(clock_instant(t));
    assert(millis_of(t) == t.secs * 1000 + (t.nanos / 1_000_000) as int);
    t.secs * 1000 + (t.nanos / 1_000_000) as i64
}

/// The trimmed text is longer than `max` bytes.
pub open spec fn too_long(s: Seq<char>, max: nat) -> bool {
    utf8_len(trim_spec(s)) > max
}

/// Trims a text and reports whether it is empty and whether it exceeds `max` bytes.
fn trimmed_status(s: &str, max: usize) -> (r: (bool, bool))
    ensures
        r.0 == (trim_spec(s@).len() == 0),
        r.1 == too_long(s@, max as nat),
{
    let t = trim_chars(&str_chars(s));
    if t.len() == 0 {
        proof {
            assert(utf8_len(t@) == 0);
        }
        return (true, false);
    }
    let mut n: usize = 0;
    let mut i: usize = 0;
    while i < t.len()
        invariant
            i <= t.len(),
            n == utf8_len(t@.take(i as int)),
            n <= max,
            t@ == trim_spec(s@),
            t.len() > 0,
        decreases t.len() - i,
    {
        assert(t@.take((i + 1) as int).drop_last() =~= t@.take(i as int));
        let u = t[i] as u32;
        let w: usize = if u < 0x80 {
            1
        } else if u < 0x800 {
            2
        } else if u < 0x10000 {
            3
        } else {
            4
        };
        assert(w == char_utf8_len(t@[i as int]));
        assert(t@.take((i + 1) as int).last() == t@[i as int]);
        if w > max - n {
            proof {
                crate::text::lemma_utf8_len_prefix(t@, (i + 1) as int);
            }
            return (false, true);
        }
        n = n + w;
        i = i + 1;
    }
    assert(t@.take(t.len() as int) =~= t@);
    (false, false)
}

/// A list of texts (stored as one JSON array).
#[derive(Debug)]
pub struct StringArray(pub Vec<String>);

/// A copy of an optional text.
pub(crate) fn dup_opt(s: &Option<String>) -> (r: Option<String>)
    ensures
        r == *s,
{
    match s {
        Some(t) => Some(t.clone()),
        None => None,
    }
}

/// A copy of a list of texts.
pub(crate) fn dup_lines(v: &Vec<String>) -> (r: Vec<String>)
    ensures
        r@ == v@,
{
    let mut r: Vec<String> = Vec::new();
    let mut i: usize = 0;
    while i < v.len()
        invariant
            i <= v.len(),
            r@ == v@.take(i as int),
        decreases v.len() - i,
    {
        r.push(v[i].clone());
        assert(r@ =~= v@.take(i + 1));
        i = i + 1;
    }
    assert(v@.take(v.len() as int) =~= v@);
    r
}

pub open spec fn opt_str(s: Option<String>) -> Option<Seq<char>> {
    match s {
        Some(x) => Some(x@),
        None => None,
    }
}

pub open spec fn masked(present: bool) -> Seq<char> {
    if present {
        seq!['*', '*', '*', '*', '*', '*', '*', '*']
    } else {
        Seq::empty()
    }
}

pub(crate) fn mask(present: bool) -> (s: String)
    ensures
        s@ == masked(present),
{
    if present {
        chars_to_string(&vec!['*', '*', '*', '*', '*', '*', '*', '*'])
    } else {
        String::new()
    }
}

} // verus!
