//! Login secrets for targets, and their binding to targets.
use vstd::prelude::*;
use crate::roles::spec_parse_uuid;
use crate::text::trim_spec;
use crate::common::{shorten_ssh_pubkey, shortenable, shortened};
use super::{mask, masked, opt_str, new_id, now_millis, private_key_parses, spec_private_key_parses, trimmed_status};

verus! {

broadcast use vstd::string::group_string_axioms;

/// A login to a target: the account name and a password and/or key pair.
#[derive(Debug)]
pub struct Secret {
    pub id: String,
    /// For display only.
    pub name: String,
    /// The account on the target.
    pub user: String,
    pub password: Option<String>,
    pub private_key: Option<String>,
    pub public_key: Option<String>,
    pub is_active: bool,
    pub updated_by: String,
    pub updated_at: i64,
}

/// The binding of a secret to a target.
#[derive(Debug)]
pub struct TargetSecret {
    pub id: String,
    pub target_id: String,
    pub secret_id: String,
    pub is_active: bool,
    pub updated_by: String,
    pub updated_at: i64,
}

impl TargetSecret {
    /// An active binding with a fresh id.
    pub fn new(target_id: String, secret_id: String, updated_by: String) -> (t: Self)
        ensures
            spec_parse_uuid(t.id@) is Some,
            t.target_id == target_id,
            t.secret_id == secret_id,
            t.is_active,
            t.updated_by == updated_by,
    {
        TargetSecret { id: new_id(), target_id, secret_id, is_active: true, updated_by, updated_at: now_millis() }
    }
}

/// A secret bound to a target, as offered to a user who may use it: the ids of the
/// policy that grants it, of the binding, of the target and of the secret, with the
/// target's name and the account name on it.
#[derive(Debug)]
pub struct TargetSecretName {
    pub pid: String,
    pub id: String,
    pub target_id: String,
    pub target_name: String,
    pub secret_id: String,
    pub secret_user: String,
}

/// A secret as listed next to targets: whether it is bound to the target at hand.
pub struct SecretInfo {
    pub id: String,
    pub name: String,
    pub user: String,
    pub is_bound: bool,
}

/// Why a secret was refused.
#[derive(Clone, Copy, Debug, PartialEq, Eq, Structural)]
pub enum ValidateError {
    NameEmpty,
    UserEmpty,
    PrivateKeyInvalid,
}

/// The message shown for a refused secret (what `Display` writes).
pub open spec fn secret_error_text(e: ValidateError) -> Seq<char> {
    match e {
        ValidateError::NameEmpty => "name cannot be empty"@,
        ValidateError::UserEmpty => "user cannot be empty"@,
        ValidateError::PrivateKeyInvalid => "invalid private key"@,
    }
}

impl ValidateError {
    /// The message shown to the user (what `Display` writes).
    pub fn message(&self) -> (s: String)
        ensures
            s@ == secret_error_text(*self),
    {
        match self {
            ValidateError::NameEmpty => "name cannot be empty".to_string(),
            ValidateError::UserEmpty => "user cannot be empty".to_string(),
            ValidateError::PrivateKeyInvalid => "invalid private key".to_string(),
        }
    }
}

/// The first check a secret fails, if any.
pub open spec fn secret_failure(name: Seq<char>, user: Seq<char>, private_key: Option<Seq<char>>, verify_key: bool) -> Option<ValidateError> {
    if trim_spec(name).len() == 0 {
        Some(ValidateError::NameEmpty)
    } else if trim_spec(user).len() == 0 {
        Some(ValidateError::UserEmpty)
    } else if verify_key && (private_key matches Some(k) && !spec_private_key_parses(k)) {
        Some(ValidateError::PrivateKeyInvalid)
    } else {
        None
    }
}

impl Secret {
    /// A copy of the secret.
    pub fn duplicate(&self) -> (r: Self)
        ensures
            r == *self,
    {
        Secret {
            id: self.id.clone(),
            name: self.name.clone(),
            user: self.user.clone(),
            password: super::dup_opt(&self.password),
            private_key: super::dup_opt(&self.private_key),
            public_key: super::dup_opt(&self.public_key),
            is_active: self.is_active,
            updated_by: self.updated_by.clone(),
            updated_at: self.updated_at,
        }
    }
}

impl Secret {
    /// A new active secret with empty name and user, no credentials and a fresh id.
    pub fn new(updated_by: String) -> (s: Self)
        ensures
            spec_parse_uuid(s.id@) is Some,
            s.name@.len() == 0,
            s.user@.len() == 0,
            s.password is None,
            s.private_key is None,
            s.public_key is None,
            s.is_active,
            s.updated_by == updated_by,
    {
        Secret {
            id: new_id(),
            name: String::new(),
            user: String::new(),
            password: None,
            private_key: None,
            public_key: None,
            is_active: true,
            updated_by,
            updated_at: now_millis(),
        }
    }

    /// The secret with a password (or none).
    pub fn with_password(self, password: Option<String>) -> (s: Self)
        ensures
            s == (Secret { password, ..self }),
    {
        Secret { password, ..self }
    }

    /// Replaces the password.
    pub fn set_password(&mut self, password: Option<String>)
        ensures
            *final(self) == (Secret { password, ..*old(self) }),
    {
        self.password = password;
    }

    /// `********` when there is a password, else empty.
    pub fn print_password(&self) -> (s: String)
        ensures
            s@ == masked(self.password is Some),
    {
        mask(self.password.is_some())
    }

    /// The secret with a private key (or none).
    pub fn with_private_key(self, private_key: Option<String>) -> (s: Self)
        ensures
            s == (Secret { private_key, ..self }),
    {
        Secret { private_key, ..self }
    }

    /// Replaces the private key.
    pub fn set_private_key(&mut self, private_key: Option<String>)
        ensures
            *final(self) == (Secret { private_key, ..*old(self) }),
    {
        self.private_key = private_key;
    }

    /// `********` when there is a private key, else empty.
    pub fn print_private_key(&self) -> (s: String)
        ensures
            s@ == masked(self.private_key is Some),
    {
        mask(self.private_key.is_some())
    }

    /// The secret with a public key (or none).
    pub fn with_public_key(self, public_key: Option<String>) -> (s: Self)
        ensures
            s == (Secret { public_key, ..self }),
    {
        Secret { public_key, ..self }
    }

    /// Replaces the public key.
    pub fn set_public_key(&mut self, public_key: Option<String>)
        ensures
            *final(self) == (Secret { public_key, ..*old(self) }),
    {
        self.public_key = public_key;
    }

    /// The public key shortened for display, or empty.
    pub fn print_public_key(&self) -> (s: String)
        requires
            self.public_key matches Some(p) ==> shortenable(p@),
        ensures
            match self.public_key {
                Some(p) => s@ == shortened(p@),
                None => s@ == Seq::<char>::empty(),
            },
    {
        match self.public_key.as_ref() {
            Some(p) => shorten_ssh_pubkey(p.as_str()),
            None => String::new(),
        }
    }

    /// Takes the password out, leaving none.
    pub fn take_password(&mut self) -> (p: Option<String>)
        ensures
            p == old(self).password,
            *final(self) == (Secret { password: None, ..*old(self) }),
    {
        self.password.take()
    }

    /// Takes the private key out, leaving none.
    pub fn take_private_key(&mut self) -> (p: Option<String>)
        ensures
            p == old(self).private_key,
            *final(self) == (Secret { private_key: None, ..*old(self) }),
    {
        self.private_key.take()
    }

    /// Takes the public key out, leaving none.
    pub fn take_public_key(&mut self) -> (p: Option<String>)
        ensures
            p == old(self).public_key,
            *final(self) == (Secret { public_key: None, ..*old(self) }),
    {
        self.public_key.take()
    }

    /// Checks, in order: a name and an account (after trimming); when `verify_key`,
    /// a private key, if any, in OpenSSH format.
    pub fn validate(&self, verify_key: bool) -> (r: Result<(), ValidateError>)
        ensures
            match r {
                Ok(()) => secret_failure(self.name@, self.user@, opt_str(self.private_key), verify_key) is None,
                Err(e) => secret_failure(self.name@, self.user@, opt_str(self.private_key), verify_key) == Some(e),
            },
    {
        let (empty, _) = trimmed_status(self.name.as_str(), 0);
        if empty {
            return Err(ValidateError::NameEmpty);
        }
        let (empty, _) = trimmed_status(self.user.as_str(), 0);
        if empty {
            return Err(ValidateError::UserEmpty);
        }
        if verify_key {
            if let Some(private_key) = self.private_key.as_ref() {
                if !private_key_parses(private_key.as_str()) {
                    return Err(ValidateError::PrivateKeyInvalid);
                }
            }
        }
        Ok(())
    }
}

} // verus!
