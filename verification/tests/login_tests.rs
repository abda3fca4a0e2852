use argon2::password_hash::{PasswordHasher, SaltString};
use rustion::login::{
    auth_password, auth_publickey, bump_counter, choose_application, reject_auth_attempts,
    Application, AuthAttempts, LoginMode, LoginParse,
};
use rustion::models::user::User;

const KEY1: &str = "ssh-ed25519 AAAAC3NzaC1lZDI1NTE5AAAAIAEBAQEBAQEBAQEBAQEBAQEBAQEBAQEBAQEBAQEBAQEB";
const KEY2: &str = "ssh-ed25519 AAAAC3NzaC1lZDI1NTE5AAAAIAICAgICAgICAgICAgICAgICAgICAgICAgICAgICAgIC";

fn argon2_hash(password: &str) -> String {
    let salt = SaltString::from_b64("c29tZXNhbHRzb21lc2FsdA").unwrap();
    argon2::Argon2::default().hash_password(password.as_bytes(), &salt).unwrap().to_string()
}

#[test]
fn login_names_and_modes() {
    let p = LoginParse::parse_login_name("alice").unwrap();
    assert!(matches!(p.parse_mode(), LoginMode::TargetSelector));
    let p = LoginParse::parse_login_name("alice@admin").unwrap();
    assert_eq!(p.0, "alice");
    assert!(matches!(p.parse_mode(), LoginMode::Admin));
    let p = LoginParse::parse_login_name("alice@password").unwrap();
    assert!(matches!(p.parse_mode(), LoginMode::Password));
    let p = LoginParse::parse_login_name("alice@venus").unwrap();
    assert!(matches!(p.parse_mode(), LoginMode::Target(ref t) if t == "venus"));
    let p = LoginParse::parse_login_name("alice@root@venus").unwrap();
    assert_eq!((p.0.as_str(), p.1.as_str(), p.2.as_str()), ("alice", "root", "venus"));
    assert!(matches!(p.parse_mode(), LoginMode::TargetWithUser(ref u, ref t) if u == "root" && t == "venus"));
    assert!(LoginParse::parse_login_name("a@b@c@d").is_none());
}

#[test]
fn attempt_counters() {
    assert_eq!(bump_counter(None, 0), (1, false));
    assert_eq!(bump_counter(Some(2), 3), (3, false));
    assert_eq!(bump_counter(Some(3), 3), (4, true));
    assert_eq!(bump_counter(Some(u32::MAX), 3), (u32::MAX, true));
    // First failure never bans; the user counter bans alone.
    assert_eq!(reject_auth_attempts(Some(None), Some(5), 10, 5), (Some(1), 6, true));
    assert_eq!(reject_auth_attempts(None, None, 10, 5), (None, 1, false));
    assert_eq!(reject_auth_attempts(Some(Some(10)), Some(0), 10, 5), (Some(11), 1, true));
}

#[test]
fn per_connection_attempts() {
    let mut a = AuthAttempts::new(2);
    assert!(!a.max_auth_attempts(false));
    assert!(!a.max_auth_attempts(false));
    assert!(a.max_auth_attempts(false));
    assert_eq!(a.count, 3);
    assert!(a.max_auth_attempts(true));
    assert_eq!(a.count, 3);
}

#[test]
fn password_and_key_logins() {
    let user = User::new("admin".to_string())
        .with_password_hash(Some(argon2_hash("pw!")))
        .with_authorized_keys(vec![KEY1.to_string()]);
    assert!(auth_password(false, Some(&user), "pw!"));
    assert!(!auth_password(true, Some(&user), "pw!"));
    assert!(!auth_password(false, Some(&user), "other"));
    assert!(!auth_password(false, None, "pw!"));
    let k1 = russh::keys::PublicKey::from_openssh(KEY1).unwrap();
    let k2 = russh::keys::PublicKey::from_openssh(KEY2).unwrap();
    assert!(auth_publickey(false, Some(&user), &k1));
    assert!(!auth_publickey(false, Some(&user), &k2));
    assert!(!auth_publickey(true, Some(&user), &k1));
    let inactive = user.set_active(false);
    assert!(!auth_password(false, Some(&inactive), "pw!"));
    assert!(!auth_publickey(false, Some(&inactive), &k1));
}

#[test]
fn application_choice() {
    use_choice("alice", false, "TargetSelector");
    use_choice("alice@admin", false, "Admin");
    use_choice("alice@password", false, "ChangePassword");
    use_choice("alice@venus", false, "TargetByName(venus)");
    use_choice("alice@root@venus", false, "ConnectTarget(root,venus)");
    // A user who must change the password gets the password change, whatever was asked.
    use_choice("alice@admin", true, "ChangePassword");
    use_choice("alice@root@venus", true, "ChangePassword");
}

fn use_choice(login: &str, force: bool, expected: &str) {
    let p = LoginParse::parse_login_name(login).unwrap();
    let got = match choose_application(force, &p) {
        Application::ChangePassword => "ChangePassword".to_string(),
        Application::TargetSelector => "TargetSelector".to_string(),
        Application::Admin => "Admin".to_string(),
        Application::ConnectTarget { user, target } => format!("ConnectTarget({},{})", user, target),
        Application::TargetByName(t) => format!("TargetByName({})", t),
    };
    assert_eq!(got, expected);
}
