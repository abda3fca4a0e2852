//! Targets: the hosts that users reach through the bastion.
use vstd::prelude::*;
use crate::roles::spec_parse_uuid;
use crate::text::trim_spec;
use crate::common::{shorten_ssh_pubkey, shortenable, shortened};
use russh::keys::PublicKey;
use super::{
    new_id, now_millis, parse_public_key, same_key_data, spec_parse_public_key, spec_same_key_data,
    too_long, trimmed_status,
};

verus! {

broadcast use vstd::string::group_string_axioms;

const MAX_NAME_LEN: usize = 50;

/// A host that users connect to through the bastion.
#[derive(Debug)]
pub struct Target {
    pub id: String,
    pub name: String,
    pub hostname: String,
    pub port: u16,
    pub server_public_key: String,
    pub description: Option<String>,
    pub is_active: bool,
    /// Id of the user who last changed the target.
    pub updated_by: String,
    pub updated_at: i64,
}

/// A target as the binding editor lists it.
#[derive(Debug)]
pub struct TargetInfo {
    pub id: String,
    pub name: String,
    pub hostname: String,
    pub port: u16,
}

/// Why a target was refused.
#[derive(Clone, Copy, Debug, PartialEq, Eq, Structural)]
pub enum ValidateError {
    NameEmpty,
    NameTooLong,
    HostnameEmpty,
    HostnameTooLong,
    PortNotNumber,
    PortInvalid,
    ServerPublicKey,
}

/// The first check a target fails, if any.
pub open spec fn target_failure(name: Seq<char>, hostname: Seq<char>, key: Seq<char>) -> Option<ValidateError> {
    if trim_spec(name).len() == 0 {
        Some(ValidateError::NameEmpty)
    } else if too_long(name, 50) {
        Some(ValidateError::NameTooLong)
    } else if trim_spec(hostname).len() == 0 {
        Some(ValidateError::HostnameEmpty)
    } else if too_long(hostname, 50) {
        Some(ValidateError::HostnameTooLong)
    } else if spec_parse_public_key(key) is None {
        Some(ValidateError::ServerPublicKey)
    } else {
        None
    }
}

/// The message shown for a refused target (what `Display` writes).
pub open spec fn target_error_text(e: ValidateError) -> Seq<char> {
    match e {
        ValidateError::NameEmpty => "name cannot be empty"@,
        ValidateError::NameTooLong => "name is too long, max: 50"@,
        ValidateError::HostnameEmpty => "hostname cannot be empty"@,
        ValidateError::HostnameTooLong => "hostname is too long, max: 50"@,
        ValidateError::ServerPublicKey => "server public key is invalid"@,
        ValidateError::PortNotNumber => "port is not a number"@,
        ValidateError::PortInvalid => "port is not within the range of 1–65536"@,
    }
}

impl ValidateError {
    /// The message shown to the user (what `Display` writes).
    pub fn message(&self) -> (s: String)
        ensures
            s@ == target_error_text(*self),
    {
        match self {
            ValidateError::NameEmpty => "name cannot be empty".to_string(),
            ValidateError::NameTooLong => "name is too long, max: 50".to_string(),
            ValidateError::HostnameEmpty => "hostname cannot be empty".to_string(),
            ValidateError::HostnameTooLong => "hostname is too long, max: 50".to_string(),
            ValidateError::ServerPublicKey => "server public key is invalid".to_string(),
            ValidateError::PortNotNumber => "port is not a number".to_string(),
            ValidateError::PortInvalid => "port is not within the range of 1–65536".to_string(),
        }
    }
}

impl Target {
    /// A copy of the target.
    pub fn duplicate(&self) -> (r: Self)
        ensures
            r == *self,
    {
        Target {
            id: self.id.clone(),
            name: self.name.clone(),
            hostname: self.hostname.clone(),
            port: self.port,
            server_public_key: self.server_public_key.clone(),
            description: super::dup_opt(&self.description),
            is_active: self.is_active,
            updated_by: self.updated_by.clone(),
            updated_at: self.updated_at,
        }
    }
}

impl Target {
    /// A new active target on port 22 with empty name, host and key, a fresh id and
    /// the current time.
    pub fn new(updated_by: String) -> (t: Self)
        ensures
            spec_parse_uuid(t.id@) is Some,
            t.name@.len() == 0,
            t.hostname@.len() == 0,
            t.port == 22,
            t.server_public_key@.len() == 0,
            t.description is None,
            t.is_active,
            t.updated_by == updated_by,
    {
        Target {
            id: new_id(),
            name: String::new(),
            hostname: String::new(),
            port: 22,
            server_public_key: String::new(),
            description: None,
            is_active: true,
            updated_by,
            updated_at: now_millis(),
        }
    }

    /// The target with a description.
    pub fn with_description(self, description: String) -> (t: Self)
        ensures
            t == (Target { description: Some(description), ..self }),
    {
        Target { description: Some(description), ..self }
    }

    /// The target, active or not.
    pub fn set_active(self, active: bool) -> (t: Self)
        ensures
            t == (Target { is_active: active, ..self }),
    {
        Target { is_active: active, ..self }
    }

    /// Checks, in order: a name, not longer than 50 bytes; a host name, not longer
    /// than 50 bytes (both after trimming); a server key in OpenSSH format.
    pub fn validate(&self) -> (r: Result<(), ValidateError>)
        ensures
            match r {
                Ok(()) => target_failure(self.name@, self.hostname@, self.server_public_key@) is None,
                Err(e) => target_failure(self.name@, self.hostname@, self.server_public_key@) == Some(e),
            },
    {
        let (empty, long) = trimmed_status(self.name.as_str(), MAX_NAME_LEN);
        if empty {
            return Err(ValidateError::NameEmpty);
        }
        if long {
            return Err(ValidateError::NameTooLong);
        }
        let (empty, long) = trimmed_status(self.hostname.as_str(), MAX_NAME_LEN);
        if empty {
            return Err(ValidateError::HostnameEmpty);
        }
        if long {
            return Err(ValidateError::HostnameTooLong);
        }
        if parse_public_key(self.server_public_key.as_str()).is_none() {
            return Err(ValidateError::ServerPublicKey);
        }
        Ok(())
    }
}

impl Target {
    /// Whether the key a server presents is the target's server key (the key data is
    /// compared; comments may differ). A server key that does not parse is refused.
    pub fn check_server_key(&self, server_public_key: &PublicKey) -> (r: Result<bool, ValidateError>)
        ensures
            match spec_parse_public_key(self.server_public_key@) {
                None => r == Err::<bool, ValidateError>(ValidateError::ServerPublicKey),
                Some(k) => r == Ok::<bool, ValidateError>(spec_same_key_data(k, *server_public_key)),
            },
    {
        match parse_public_key(self.server_public_key.as_str()) {
            Some(k) => Ok(same_key_data(&k, server_public_key)),
            None => Err(ValidateError::ServerPublicKey),
        }
    }

    /// The server key shortened for display (as keys are shown elsewhere).
    pub fn print_server_key(&self) -> (s: String)
        requires
            shortenable(self.server_public_key@),
        ensures
            s@ == shortened(self.server_public_key@),
    {
        shorten_ssh_pubkey(self.server_public_key.as_str())
    }
}

} // verus!
