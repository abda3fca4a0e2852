//! Users of the bastion, their password hash and authorized keys.
use vstd::prelude::*;
use russh::keys::PublicKey;
use crate::roles::spec_parse_uuid;
use crate::text::{chars_to_string, decimal, decimal_of, push_all, str_chars, trim_spec};
use super::{
    StringArray, mask, masked, opt_str, argon2_verify, email_matches, new_id, now_millis, parse_public_key, password_hash_parses,
    same_key_data, spec_argon2_verifies, email_ok, spec_parse_public_key,
    spec_password_hash_parses, spec_same_key_data, too_long, trimmed_status,
};

verus! {

broadcast use vstd::string::group_string_axioms;

const MAX_USERNAME_LEN: usize = 40;

/// A user of the bastion.
#[derive(Debug)]
pub struct User {
    pub id: String,
    pub username: String,
    pub email: Option<String>,
    pub password_hash: Option<String>,
    pub authorized_keys: Option<StringArray>,
    pub force_init_pass: bool,
    pub is_active: bool,
    pub updated_by: String,
    pub updated_at: i64,
}

/// A user with the name of its role, as the console lists users.
#[derive(Debug)]
pub struct UserWithRole {
    pub user: User,
    pub role: String,
}

/// Why a user was refused; `AuthorizedKeyInvalid` lists the positions of the keys
/// that are not OpenSSH public keys.
#[derive(Debug)]
pub enum ValidateError {
    UsernameEmpty,
    UsernameTooLong,
    EmailInvalid,
    AuthorizedKeyInvalid(Vec<usize>),
}

/// [`ValidateError`] with the positions as a sequence.
pub enum UserErrorView {
    UsernameEmpty,
    UsernameTooLong,
    EmailInvalid,
    AuthorizedKeyInvalid(Seq<usize>),
}

impl ValidateError {
    pub open spec fn view(&self) -> UserErrorView {
        match self {
            ValidateError::UsernameEmpty => UserErrorView::UsernameEmpty,
            ValidateError::UsernameTooLong => UserErrorView::UsernameTooLong,
            ValidateError::EmailInvalid => UserErrorView::EmailInvalid,
            ValidateError::AuthorizedKeyInvalid(v) => UserErrorView::AuthorizedKeyInvalid(v@),
        }
    }
}

/// The positions `< n` of the keys that do not parse.
pub open spec fn invalid_key_positions(keys: Seq<Seq<char>>, n: int) -> Seq<usize>
    decreases n,
{
    if n <= 0 {
        Seq::empty()
    } else if spec_parse_public_key(keys[n - 1]) is None {
        invalid_key_positions(keys, n - 1).push((n - 1) as usize)
    } else {
        invalid_key_positions(keys, n - 1)
    }
}

/// The first check a user fails, if any.
pub open spec fn user_failure(username: Seq<char>, email: Option<Seq<char>>, keys: Option<Seq<Seq<char>>>) -> Option<UserErrorView> {
    if trim_spec(username).len() == 0 {
        Some(UserErrorView::UsernameEmpty)
    } else if too_long(username, 40) {
        Some(UserErrorView::UsernameTooLong)
    } else if email matches Some(e) && !email_ok(e) {
        Some(UserErrorView::EmailInvalid)
    } else {
        match keys {
            Some(k) if invalid_key_positions(k, k.len() as int).len() > 0 => Some(
                UserErrorView::AuthorizedKeyInvalid(invalid_key_positions(k, k.len() as int)),
            ),
            _ => None,
        }
    }
}

/// Whether a client key matches the stored keys, tried in order: a stored key that is
/// not an OpenSSH key ends the search unmatched.
pub open spec fn keys_admit(keys: Seq<Seq<char>>, pk: PublicKey) -> bool
    decreases keys.len(),
{
    if keys.len() == 0 {
        false
    } else {
        match spec_parse_public_key(keys[0]) {
            None => false,
            Some(k) => spec_same_key_data(k, pk) || keys_admit(keys.drop_first(), pk),
        }
    }
}

/// The texts held by a vector of strings.
pub open spec fn strings_view(v: Seq<String>) -> Seq<Seq<char>> {
    v.map_values(|s: String| s@)
}

fn clone_strings(v: &Vec<String>) -> (r: Vec<String>)
    ensures
        r@ == v@,
{
    let mut r: Vec<String> = Vec::new();
    let mut i: usize = 0;
    while i < v.len()
        invariant
            i <= v.len(),
            r@ == v@.take(i as int),
        decreases v.len() - i,
    {
        r.push(v[i].clone());
        i = i + 1;
        assert(v@.take(i as int) == v@.take((i - 1) as int).push(v@[i - 1]));
    }
    assert(v@.take(v.len() as int) =~= v@);
    r
}

/// Two users that hold the same values, the authorized keys compared by their texts.
pub open spec fn same_user(a: User, b: User) -> bool {
    &&& a.id == b.id
    &&& a.username == b.username
    &&& a.email == b.email
    &&& a.password_hash == b.password_hash
    &&& a.keys() == b.keys()
    &&& a.force_init_pass == b.force_init_pass
    &&& a.is_active == b.is_active
    &&& a.updated_by == b.updated_by
    &&& a.updated_at == b.updated_at
}

impl User {
    /// A copy of the user (its authorized keys as a new list of the same keys).
    pub fn duplicate(&self) -> (r: Self)
        ensures
            same_user(r, *self),
    {
        let keys = match &self.authorized_keys {
            Some(a) => Some(StringArray(super::dup_lines(&a.0))),
            None => None,
        };
        User {
            id: self.id.clone(),
            username: self.username.clone(),
            email: super::dup_opt(&self.email),
            password_hash: super::dup_opt(&self.password_hash),
            authorized_keys: keys,
            force_init_pass: self.force_init_pass,
            is_active: self.is_active,
            updated_by: self.updated_by.clone(),
            updated_at: self.updated_at,
        }
    }
}

impl User {
    /// The stored password hash.
    pub open spec fn hash(&self) -> Option<Seq<char>> {
        opt_str(self.password_hash)
    }

    /// The stored authorized keys.
    pub open spec fn keys(&self) -> Option<Seq<Seq<char>>> {
        match self.authorized_keys {
            Some(a) => Some(strings_view(a.0@)),
            None => None,
        }
    }

    /// A new active user that must set a password at first login, with a fresh id.
    pub fn new(updated_by: String) -> (u: Self)
        ensures
            spec_parse_uuid(u.id@) is Some,
            u.username@.len() == 0,
            u.email is None,
            u.hash() is None,
            u.keys() is None,
            u.force_init_pass,
            u.is_active,
            u.updated_by == updated_by,
    {
        User {
            id: new_id(),
            username: String::new(),
            email: None,
            password_hash: None,
            authorized_keys: None,
            force_init_pass: true,
            is_active: true,
            updated_by,
            updated_at: now_millis(),
        }
    }

    /// The user with an e-mail address.
    pub fn with_email(self, email: String) -> (u: Self)
        ensures
            u == (User { email: Some(email), ..self }),
    {
        User { email: Some(email), ..self }
    }

    /// The user with a password hash (or none).
    pub fn with_password_hash(self, password_hash: Option<String>) -> (u: Self)
        ensures
            u == (User { password_hash, ..self }),
            u.hash() == opt_str(password_hash),
    {
        User { password_hash, ..self }
    }

    /// The user with authorized keys.
    pub fn with_authorized_keys(self, authorized_keys: Vec<String>) -> (u: Self)
        ensures
            u == (User { authorized_keys: Some(StringArray(authorized_keys)), ..self }),
            u.keys() == Some(strings_view(authorized_keys@)),
    {
        User { authorized_keys: Some(StringArray(authorized_keys)), ..self }
    }

    /// Replaces the authorized keys.
    pub fn set_authorized_keys(&mut self, authorized_keys: Option<Vec<String>>)
        ensures
            *final(self) == (User {
                authorized_keys: match authorized_keys {
                    Some(k) => Some(StringArray(k)),
                    None => None,
                },
                ..*old(self)
            }),
            final(self).keys() == match authorized_keys {
                Some(k) => Some(strings_view(k@)),
                None => None,
            },
    {
        self.authorized_keys = match authorized_keys {
            Some(k) => Some(StringArray(k)),
            None => None,
        };
    }

    /// The user, active or not.
    pub fn set_active(self, active: bool) -> (u: Self)
        ensures
            u == (User { is_active: active, ..self }),
    {
        User { is_active: active, ..self }
    }

    /// Takes the password hash out, leaving none.
    pub fn take_password_hash(&mut self) -> (h: Option<String>)
        ensures
            h == old(self).password_hash,
            *final(self) == (User { password_hash: None, ..*old(self) }),
    {
        self.password_hash.take()
    }

    /// Replaces the password hash.
    pub fn set_password_hash(&mut self, password: String)
        ensures
            *final(self) == (User { password_hash: Some(password), ..*old(self) }),
    {
        self.password_hash = Some(password);
    }

    /// `********` when the user has authorized keys, else empty.
    pub fn print_authorized_keys(&self) -> (s: String)
        ensures
            s@ == masked(self.keys() is Some),
    {
        mask(self.authorized_keys.is_some())
    }

    /// `********` when the user has a password, else empty.
    pub fn print_password(&self) -> (s: String)
        ensures
            s@ == masked(self.hash() is Some),
    {
        mask(self.password_hash.is_some())
    }

    /// A copy of the authorized keys.
    pub fn get_authorized_keys(&self) -> (r: Option<Vec<String>>)
        ensures
            match r {
                Some(v) => self.keys() == Some(strings_view(v@)),
                None => self.keys() is None,
            },
    {
        match &self.authorized_keys {
            Some(a) => Some(clone_strings(&a.0)),
            None => None,
        }
    }

    /// Whether `password` matches the stored hash; no hash, or a hash that is not a
    /// PHC string, matches nothing.
    pub fn verify_password(&self, password: &str) -> (r: bool)
        ensures
            r == (self.hash() matches Some(h) && spec_password_hash_parses(h) && spec_argon2_verifies(h, password@)),
    {
        let hash = match self.password_hash.as_ref() {
            Some(h) => h,
            None => return false,
        };
        if !password_hash_parses(hash.as_str()) {
            return false;
        }
        argon2_verify(hash.as_str(), password)
    }

    /// Whether the client's key is one of the authorized keys, tried in order; a
    /// stored key that is not an OpenSSH key ends the search unmatched.
    pub fn verify_authorized_keys(&self, pub_key: &PublicKey) -> (r: bool)
        ensures
            r == (self.keys() matches Some(k) && keys_admit(k, *pub_key)),
    {
        if let Some(keys) = self.authorized_keys.as_ref() {
            let ghost ks = strings_view(keys.0@);
            let mut i: usize = 0;
            assert(ks.skip(0) =~= ks);
            while i < keys.0.len()
                invariant
                    i <= keys.0.len(),
                    ks == strings_view(keys.0@),
                    self.keys() == Some(ks),
                    keys_admit(ks.skip(i as int), *pub_key) == keys_admit(ks, *pub_key),
                decreases keys.0.len() - i,
            {
                assert(ks.skip(i as int).drop_first() =~= ks.skip(i + 1));
                assert(ks.skip(i as int)[0] == keys.0@[i as int]@);
                match parse_public_key(keys.0[i].as_str()) {
                    Some(k) => {
                        if same_key_data(&k, pub_key) {
                            return true;
                        }
                    },
                    None => return false,
                }
                i = i + 1;
            }
            assert(ks.skip(keys.0.len() as int) =~= Seq::<Seq<char>>::empty());
        }
        false
    }

    /// Checks, in order: a user name, not longer than 40 bytes (after trimming); an
    /// e-mail address, if any, of the expected form; every authorized key an OpenSSH
    /// public key (the positions of the others are reported).
    pub fn validate(&self) -> (r: Result<(), ValidateError>)
        ensures
            match r {
                Ok(()) => user_failure(self.username@, opt_str(self.email), self.keys()) is None,
                Err(e) => user_failure(self.username@, opt_str(self.email), self.keys()) == Some(e.view()),
            },
            r matches Err(ValidateError::AuthorizedKeyInvalid(v)) ==> forall|j: int| 0 <= j < v@.len() ==> v@[j] < usize::MAX,
    {
        let (empty, long) = trimmed_status(self.username.as_str(), MAX_USERNAME_LEN);
        if empty {
            return Err(ValidateError::UsernameEmpty);
        }
        if long {
            return Err(ValidateError::UsernameTooLong);
        }
        if let Some(e) = self.email.as_ref() {
            if !email_matches(e.as_str()) {
                return Err(ValidateError::EmailInvalid);
            }
        }
        let mut invalid_keys: Vec<usize> = Vec::new();
        if let Some(keys) = self.authorized_keys.as_ref() {
            let ghost ks = strings_view(keys.0@);
            let mut i: usize = 0;
            while i < keys.0.len()
                invariant
                    i <= keys.0.len(),
                    ks == strings_view(keys.0@),
                    ks.len() == keys.0.len(),
                    invalid_keys@ == invalid_key_positions(ks, i as int),
                    forall|j: int| 0 <= j < invalid_keys@.len() ==> invalid_keys@[j] < i,
                decreases keys.0.len() - i,
            {
                assert(ks[i as int] == keys.0@[i as int]@);
                if parse_public_key(keys.0[i].as_str()).is_none() {
                    invalid_keys.push(i);
                }
                i = i + 1;
            }
        }
        if invalid_keys.len() > 0 {
            return Err(ValidateError::AuthorizedKeyInvalid(invalid_keys));
        }
        Ok(())
    }
}

/// Line numbers (positions plus one) joined by `, `.
pub open spec fn line_numbers_text(v: Seq<usize>) -> Seq<char>
    decreases v.len(),
{
    if v.len() == 0 {
        Seq::empty()
    } else if v.len() == 1 {
        decimal((v[0] + 1) as nat)
    } else {
        line_numbers_text(v.drop_last()) + seq![',', ' '] + decimal((v.last() + 1) as nat)
    }
}

/// The message shown for a refused user (what `Display` writes).
pub open spec fn user_error_text(e: UserErrorView) -> Seq<char> {
    match e {
        UserErrorView::UsernameEmpty => "Username cannot be empty"@,
        UserErrorView::UsernameTooLong => "Username is too long, max: 40"@,
        UserErrorView::EmailInvalid => "Invalid email format"@,
        UserErrorView::AuthorizedKeyInvalid(v) => "Invalid authorized keys, line number: "@
            + line_numbers_text(v),
    }
}

/// Line numbers (positions plus one) joined by `, `.
pub(crate) fn line_numbers(v: &Vec<usize>) -> (out: Vec<char>)
    requires
        forall|i: int| 0 <= i < v@.len() ==> v@[i] < u64::MAX,
    ensures
        out@ == line_numbers_text(v@),
{
    let mut out: Vec<char> = Vec::new();
    let mut i: usize = 0;
    while i < v.len()
        invariant
            i <= v.len(),
            forall|j: int| 0 <= j < v@.len() ==> v@[j] < u64::MAX,
            out@ == line_numbers_text(v@.take(i as int)),
        decreases v.len() - i,
    {
        assert(v@.take((i + 1) as int).drop_last() =~= v@.take(i as int));
        if i > 0 {
            out.push(',');
            out.push(' ');
        }
        let d = decimal_of((v[i] as u64) + 1);
        push_all(&mut out, &d);
        if i == 0 {
            assert(v@.take(1).len() == 1);
            assert(out@ =~= line_numbers_text(v@.take(1)));
        } else {
            assert(out@ =~= line_numbers_text(v@.take((i + 1) as int)));
        }
        i = i + 1;
    }
    assert(v@.take(v.len() as int) =~= v@);
    out
}

impl ValidateError {
    /// The message shown to the user (what `Display` writes).
    pub fn message(&self) -> (s: String)
        requires
            self matches ValidateError::AuthorizedKeyInvalid(v) ==> forall|i: int| 0 <= i < v@.len() ==> v@[i] < u64::MAX,
        ensures
            s@ == user_error_text(self.view()),
    {
        match self {
            ValidateError::UsernameEmpty => "Username cannot be empty".to_string(),
            ValidateError::UsernameTooLong => "Username is too long, max: 40".to_string(),
            ValidateError::EmailInvalid => "Invalid email format".to_string(),
            ValidateError::AuthorizedKeyInvalid(v) => {
                let mut out = str_chars("Invalid authorized keys, line number: ");
                push_all(&mut out, &line_numbers(v));
                chars_to_string(&out)
            },
        }
    }
}

} // verus!
