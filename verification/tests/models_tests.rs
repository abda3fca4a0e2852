use argon2::password_hash::{PasswordHasher, SaltString};
use rustion::common::shorten_ssh_pubkey;
use rustion::models::target::{Target, ValidateError as TargetError};
use rustion::models::target_secret::{Secret, TargetSecret, ValidateError as SecretError};
use rustion::models::user::{User, ValidateError as UserError};
use rustion::models::StringArray;

const KEY1: &str = "ssh-ed25519 AAAAC3NzaC1lZDI1NTE5AAAAIAEBAQEBAQEBAQEBAQEBAQEBAQEBAQEBAQEBAQEBAQEB";
const KEY2: &str = "ssh-ed25519 AAAAC3NzaC1lZDI1NTE5AAAAIAICAgICAgICAgICAgICAgICAgICAgICAgICAgICAgIC";

fn argon2_hash(password: &str) -> String {
    let salt = SaltString::from_b64("c29tZXNhbHRzb21lc2FsdA").unwrap();
    argon2::Argon2::default().hash_password(password.as_bytes(), &salt).unwrap().to_string()
}

fn valid_target() -> Target {
    let mut t = Target::new("admin".to_string());
    t.name = "web".to_string();
    t.hostname = "10.0.0.1".to_string();
    t.server_public_key = KEY1.to_string();
    t
}

#[test]
fn target_defaults_and_builders() {
    let t = Target::new("admin".to_string());
    assert_eq!(t.port, 22);
    assert!(t.is_active);
    assert!(t.description.is_none());
    assert_eq!(t.updated_by, "admin");
    assert!(uuid::Uuid::parse_str(&t.id).is_ok());
    let t = t.with_description("db".to_string()).set_active(false);
    assert_eq!(t.description.as_deref(), Some("db"));
    assert!(!t.is_active);
}

#[test]
fn target_validation_order() {
    assert!(valid_target().validate().is_ok());
    let mut t = valid_target();
    t.name = "   ".to_string();
    assert_eq!(t.validate().unwrap_err(), TargetError::NameEmpty);
    let mut t = valid_target();
    t.name = "x".repeat(51);
    assert_eq!(t.validate().unwrap_err(), TargetError::NameTooLong);
    let mut t = valid_target();
    t.name = format!("  {}  ", "x".repeat(50));
    assert!(t.validate().is_ok());
    let mut t = valid_target();
    t.hostname = String::new();
    assert_eq!(t.validate().unwrap_err(), TargetError::HostnameEmpty);
    let mut t = valid_target();
    t.hostname = "h".repeat(60);
    assert_eq!(t.validate().unwrap_err(), TargetError::HostnameTooLong);
    let mut t = valid_target();
    t.server_public_key = "nope".to_string();
    assert_eq!(t.validate().unwrap_err(), TargetError::ServerPublicKey);
    assert_eq!(TargetError::PortInvalid.message(), "port is not within the range of 1–65536");
    assert_eq!(TargetError::NameTooLong.message(), "name is too long, max: 50");
}

#[test]
fn user_validation_and_messages() {
    let mut u = User::new("admin".to_string());
    assert_eq!(u.validate().unwrap_err().message(), "Username cannot be empty");
    u.username = "a".repeat(41);
    assert!(matches!(u.validate(), Err(UserError::UsernameTooLong)));
    u.username = "alice".to_string();
    assert!(u.validate().is_ok());
    let u = u.with_email("not an email".to_string());
    assert!(matches!(u.validate(), Err(UserError::EmailInvalid)));
    let u = u.with_email("alice@example.com".to_string());
    assert!(u.validate().is_ok());
    let u = u.with_authorized_keys(vec![KEY1.to_string(), "bad".to_string(), KEY2.to_string(), "x".to_string()]);
    match u.validate() {
        Err(UserError::AuthorizedKeyInvalid(v)) => assert_eq!(v, vec![1, 3]),
        _ => panic!("keys 1 and 3 are invalid"),
    }
    assert_eq!(
        UserError::AuthorizedKeyInvalid(vec![1, 3]).message(),
        "Invalid authorized keys, line number: 2, 4"
    );
}

#[test]
fn user_password_and_keys() {
    let u = User::new("admin".to_string()).with_password_hash(Some(argon2_hash("s3cret!")));
    assert!(u.verify_password("s3cret!"));
    assert!(!u.verify_password("wrong"));
    assert_eq!(u.print_password(), "********");
    let no_hash = User::new("admin".to_string());
    assert!(!no_hash.verify_password("s3cret!"));
    assert_eq!(no_hash.print_password(), "");
    let bad_hash = User::new("admin".to_string()).with_password_hash(Some("garbage".to_string()));
    assert!(!bad_hash.verify_password("garbage"));

    let u = User::new("admin".to_string()).with_authorized_keys(vec![KEY1.to_string()]);
    let k1 = russh::keys::PublicKey::from_openssh(KEY1).unwrap();
    let k2 = russh::keys::PublicKey::from_openssh(KEY2).unwrap();
    assert!(u.verify_authorized_keys(&k1));
    assert!(!u.verify_authorized_keys(&k2));
    assert_eq!(u.print_authorized_keys(), "********");
    assert_eq!(u.get_authorized_keys(), Some(vec![KEY1.to_string()]));
    let mut u = u;
    u.set_authorized_keys(None);
    assert!(!u.verify_authorized_keys(&k1));
    assert!(u.get_authorized_keys().is_none());
    let _ = StringArray(vec![]);
}

#[test]
fn user_hash_take_and_set() {
    let mut u = User::new("admin".to_string());
    u.set_password_hash("h".to_string());
    assert_eq!(u.take_password_hash(), Some("h".to_string()));
    assert!(u.password_hash.is_none());
    let u = u.set_active(false);
    assert!(!u.is_active);
}

#[test]
fn secret_validation_and_display() {
    let mut s = Secret::new("admin".to_string());
    assert_eq!(s.validate(true).unwrap_err(), SecretError::NameEmpty);
    assert_eq!(SecretError::NameEmpty.message(), "name cannot be empty");
    s.name = "root-login".to_string();
    assert_eq!(s.validate(true).unwrap_err(), SecretError::UserEmpty);
    s.user = "root".to_string();
    assert!(s.validate(true).is_ok());
    let mut s = s.with_private_key(Some("not a key".to_string()));
    assert_eq!(s.validate(true).unwrap_err(), SecretError::PrivateKeyInvalid);
    assert!(s.validate(false).is_ok());
    assert_eq!(s.print_private_key(), "********");
    assert_eq!(s.print_password(), "");
    s.set_password(Some("pw".to_string()));
    assert_eq!(s.print_password(), "********");
    assert_eq!(s.take_password(), Some("pw".to_string()));
    assert_eq!(s.take_private_key(), Some("not a key".to_string()));
    let s = s.with_public_key(Some(format!("{} user@host", KEY1)));
    assert_eq!(s.print_public_key(), "ssh-ed25519 AAAAC3Nz...AQEBAQEBAQEBAQEB user@host");
    let t = TargetSecret::new("t1".to_string(), "s1".to_string(), "admin".to_string());
    assert!(t.is_active);
    assert_eq!(t.target_id, "t1");
}

#[test]
fn shorten_keys() {
    assert_eq!(
        shorten_ssh_pubkey(&format!("{} me@host", KEY2)),
        "ssh-ed25519 AAAAC3Nz...AgICAgICAgICAgIC me@host"
    );
    assert_eq!(shorten_ssh_pubkey(KEY2), "ssh-ed25519 AAAAC3Nz...AgICAgICAgICAgIC");
    // Short key data is kept as it is.
    assert_eq!(shorten_ssh_pubkey("ssh-rsa AAAA comment"), "ssh-rsa AAAA comment");
    assert_eq!(shorten_ssh_pubkey(""), "");
}

#[test]
fn server_key_check() {
    let t = valid_target();
    let k1 = russh::keys::PublicKey::from_openssh(KEY1).unwrap();
    let k2 = russh::keys::PublicKey::from_openssh(KEY2).unwrap();
    assert_eq!(t.check_server_key(&k1), Ok(true));
    assert_eq!(t.check_server_key(&k2), Ok(false));
    let mut bad = valid_target();
    bad.server_public_key = "garbage".to_string();
    assert_eq!(bad.check_server_key(&k1), Err(TargetError::ServerPublicKey));
    // The comment of a key line does not matter.
    let mut commented = valid_target();
    commented.server_public_key = format!("{} host-key", KEY1);
    assert_eq!(commented.check_server_key(&k1), Ok(true));
}

#[test]
fn hashed_password_verifies() {
    let h = rustion::models::hash_password("S3cret!pass").unwrap();
    assert!(h.starts_with("$argon2"));
    let mut u = rustion::models::user::User::new("adm".to_string());
    u.password_hash = Some(h.clone());
    assert!(u.verify_password("S3cret!pass"));
    assert!(!u.verify_password("s3cret!pass"));
    assert_ne!(rustion::models::hash_password("S3cret!pass").unwrap(), h);
}
