//! Logging in: the login name selects what the session does, and failed attempts
//! are counted per connection, per client address and per user.
use vstd::prelude::*;
use russh::keys::PublicKey;
use crate::models::{spec_argon2_verifies, spec_password_hash_parses};
use crate::models::user::{keys_admit, User};
use crate::text::{chars_to_string, split_chars, split_spec, str_chars, views};

verus! {

broadcast use vstd::string::group_string_axioms;

/// A login name split at `@`: the user, and up to two more parts.
/// - `user@root@target@bastion`: connect to `target` as `root`;
/// - `user@target@bastion`: connect to `target`;
/// - `user@password@bastion`: change the password;
/// - `user@admin@bastion`: administration;
/// - `user@bastion`: choose a target.
#[derive(Debug)]
pub struct LoginParse(pub String, pub String, pub String);

/// What a session does.
#[derive(Debug)]
pub enum LoginMode {
    TargetSelector,
    Password,
    Admin,
    Target(String),
    TargetWithUser(String, String),
}

/// [`LoginMode`] with texts as characters.
pub enum LoginModeView {
    TargetSelector,
    Password,
    Admin,
    Target(Seq<char>),
    TargetWithUser(Seq<char>, Seq<char>),
}

impl LoginMode {
    pub open spec fn view(&self) -> LoginModeView {
        match self {
            LoginMode::TargetSelector => LoginModeView::TargetSelector,
            LoginMode::Password => LoginModeView::Password,
            LoginMode::Admin => LoginModeView::Admin,
            LoginMode::Target(t) => LoginModeView::Target(t@),
            LoginMode::TargetWithUser(u, t) => LoginModeView::TargetWithUser(u@, t@),
        }
    }
}

/// The parts of a login name: one to three `@`-separated parts, missing ones empty.
pub open spec fn login_parts(s: Seq<char>) -> Option<(Seq<char>, Seq<char>, Seq<char>)> {
    let p = split_spec(s, '@');
    if p.len() == 1 {
        Some((p[0], Seq::empty(), Seq::empty()))
    } else if p.len() == 2 {
        Some((p[0], p[1], Seq::empty()))
    } else if p.len() == 3 {
        Some((p[0], p[1], p[2]))
    } else {
        None
    }
}

pub open spec fn password_word() -> Seq<char> {
    seq!['p', 'a', 's', 's', 'w', 'o', 'r', 'd']
}

pub open spec fn admin_word() -> Seq<char> {
    seq!['a', 'd', 'm', 'i', 'n']
}

/// The mode of parsed parts: two further parts connect as an account to a target;
/// one further part is `password`, `admin` or a target; none selects a target.
pub open spec fn mode_of(second: Seq<char>, third: Seq<char>) -> LoginModeView {
    if second.len() > 0 && third.len() > 0 {
        LoginModeView::TargetWithUser(second, third)
    } else if second.len() > 0 {
        if second == password_word() {
            LoginModeView::Password
        } else if second == admin_word() {
            LoginModeView::Admin
        } else {
            LoginModeView::Target(second)
        }
    } else {
        LoginModeView::TargetSelector
    }
}

impl LoginParse {
    /// Splits a login name at `@`; more than three parts are refused.
    pub fn parse_login_name(login: &str) -> (r: Option<LoginParse>)
        ensures
            match r {
                Some(l) => login_parts(login@) == Some((l.0@, l.1@, l.2@)),
                None => login_parts(login@) is None,
            },
    {
        let parts = split_chars(&str_chars(login), '@');
        proof {
            crate::text::lemma_split_nonempty(login@, '@');
        }
        let n = parts.len();
        if n == 1 {
            Some(LoginParse(chars_to_string(&parts[0]), String::new(), String::new()))
        } else if n == 2 {
            Some(LoginParse(chars_to_string(&parts[0]), chars_to_string(&parts[1]), String::new()))
        } else if n == 3 {
            Some(
                LoginParse(
                    chars_to_string(&parts[0]),
                    chars_to_string(&parts[1]),
                    chars_to_string(&parts[2]),
                ),
            )
        } else {
            None
        }
    }

    /// What the session does.
    pub fn parse_mode(&self) -> (m: LoginMode)
        ensures
            m.view() == mode_of(self.1@, self.2@),
    {
        let second = str_chars(self.1.as_str());
        let third = str_chars(self.2.as_str());
        if second.len() > 0 && third.len() > 0 {
            return LoginMode::TargetWithUser(self.1.clone(), self.2.clone());
        }
        if second.len() > 0 {
            if crate::text::chars_eq(&second, &vec!['p', 'a', 's', 's', 'w', 'o', 'r', 'd']) {
                return LoginMode::Password;
            }
            if crate::text::chars_eq(&second, &vec!['a', 'd', 'm', 'i', 'n']) {
                return LoginMode::Admin;
            }
            return LoginMode::Target(self.1.clone());
        }
        LoginMode::TargetSelector
    }
}

// ---------------------------------------------------------------------------
// Counting attempts
// ---------------------------------------------------------------------------

/// The application a new session starts.
pub enum Application {
    ChangePassword,
    TargetSelector,
    Admin,
    /// Connect as `user` to `target`.
    ConnectTarget { user: String, target: String },
    /// Choose among the accounts of the target named so.
    TargetByName(String),
}

/// The application a session starts: a user who must set a new password changes it
/// first, whatever was asked; otherwise the login mode decides.
pub open spec fn application_for(force_init_pass: bool, mode: LoginModeView) -> ApplicationView {
    if force_init_pass {
        ApplicationView::ChangePassword
    } else {
        match mode {
            LoginModeView::TargetSelector => ApplicationView::TargetSelector,
            LoginModeView::Password => ApplicationView::ChangePassword,
            LoginModeView::Admin => ApplicationView::Admin,
            LoginModeView::TargetWithUser(u, t) => ApplicationView::ConnectTarget(u, t),
            LoginModeView::Target(t) => ApplicationView::TargetByName(t),
        }
    }
}

/// [`Application`] with texts as characters.
pub enum ApplicationView {
    ChangePassword,
    TargetSelector,
    Admin,
    ConnectTarget(Seq<char>, Seq<char>),
    TargetByName(Seq<char>),
}

impl Application {
    pub open spec fn view(&self) -> ApplicationView {
        match self {
            Application::ChangePassword => ApplicationView::ChangePassword,
            Application::TargetSelector => ApplicationView::TargetSelector,
            Application::Admin => ApplicationView::Admin,
            Application::ConnectTarget { user, target } => ApplicationView::ConnectTarget(user@, target@),
            Application::TargetByName(t) => ApplicationView::TargetByName(t@),
        }
    }
}

/// The application for a user with the given login.
pub fn choose_application(force_init_pass: bool, login: &LoginParse) -> (a: Application)
    ensures
        a.view() == application_for(force_init_pass, mode_of(login.1@, login.2@)),
{
    if force_init_pass {
        return Application::ChangePassword;
    }
    match login.parse_mode() {
        LoginMode::TargetSelector => Application::TargetSelector,
        LoginMode::Password => Application::ChangePassword,
        LoginMode::Admin => Application::Admin,
        LoginMode::TargetWithUser(user, target) => Application::ConnectTarget { user, target },
        LoginMode::Target(name) => Application::TargetByName(name),
    }
}

/// A user who must set a new password reaches nothing else.
pub proof fn law_forced_password_change(mode: LoginModeView)
    ensures
        application_for(true, mode) == ApplicationView::ChangePassword,
{
}

/// The authentication attempts of one connection.
#[derive(Clone, Copy, Debug)]
pub struct AuthAttempts {
    pub count: u32,
    pub max: u32,
}

impl AuthAttempts {
    /// No attempt yet, at most `max` allowed.
    pub fn new(max: u32) -> (a: Self)
        ensures
            a.count == 0,
            a.max == max,
    {
        AuthAttempts { count: 0, max }
    }

    /// Records an authentication attempt on this connection and tells whether it is
    /// refused as one attempt too many. `globally_banned` is the verdict of
    /// [`reject_auth_attempts`] on the client's and user's counters: a banned client
    /// or user is refused without counting; otherwise the attempt is counted and
    /// refused once the count exceeds the maximum.
    pub fn max_auth_attempts(&mut self, globally_banned: bool) -> (refused: bool)
        requires
            !globally_banned ==> old(self).count < u32::MAX,
        ensures
            final(self).max == old(self).max,
            globally_banned ==> refused && final(self).count == old(self).count,
            !globally_banned ==> final(self).count == old(self).count + 1 && refused == (final(self).count
                > final(self).max),
    {
        if globally_banned {
            return true;
        }
        self.count = self.count + 1;
        self.count > self.max
    }
}

/// The counter of failed attempts of one client address or user after one more
/// failure, and whether that failure is one too many. A first failure is stored as 1
/// and never bans; later ones add one (saturating) and ban once the count exceeds the
/// maximum.
pub fn bump_counter(prev: Option<u32>, max: u32) -> (r: (u32, bool))
    ensures
        match prev {
            None => r == (1u32, false),
            Some(c) => r.0 == (if c == u32::MAX {
                u32::MAX
            } else {
                (c + 1) as u32
            }) && r.1 == (r.0 > max),
        },
{
    match prev {
        None => (1, false),
        Some(c) => {
            let n = c.saturating_add(1);
            (n, n > max)
        },
    }
}

/// The outcome of one failed-attempt check: the address counter (when the address is
/// known), the user counter, and whether either is banned.
pub fn reject_auth_attempts(
    ip_prev: Option<Option<u32>>,
    user_prev: Option<u32>,
    max_ip_attempts: u32,
    max_user_attempts: u32,
) -> (r: (Option<u32>, u32, bool))
    ensures
        match ip_prev {
            None => r.0 is None,
            Some(p) => r.0 == Some(bump_counter_spec(p, max_ip_attempts).0),
        },
        r.1 == bump_counter_spec(user_prev, max_user_attempts).0,
        r.2 == ((ip_prev matches Some(p) && bump_counter_spec(p, max_ip_attempts).1) || bump_counter_spec(
            user_prev,
            max_user_attempts,
        ).1),
{
    let mut banned = false;
    let ip_count = match ip_prev {
        Some(p) => {
            let (n, b) = bump_counter(p, max_ip_attempts);
            if b {
                banned = true;
            }
            Some(n)
        },
        None => None,
    };
    let (user_count, b) = bump_counter(user_prev, max_user_attempts);
    if b {
        banned = true;
    }
    (ip_count, user_count, banned)
}

pub open spec fn bump_counter_spec(prev: Option<u32>, max: u32) -> (u32, bool) {
    match prev {
        None => (1u32, false),
        Some(c) => {
            let n: u32 = if c == u32::MAX {
                u32::MAX
            } else {
                (c + 1) as u32
            };
            (n, n > max)
        },
    }
}

/// Once a counter bans, every further failure of the same client or user is banned
/// too (while the counter is kept): counters only grow.
pub proof fn law_ban_persists(c: u32, max: u32)
    requires
        bump_counter_spec(Some(c), max).1,
    ensures
        bump_counter_spec(Some(bump_counter_spec(Some(c), max).0), max).1,
{
}

/// A counter bans exactly from the failure after the `max`-th on: failures number
/// 1 to `max` pass, failure `max + 1` is banned.
pub proof fn law_ban_threshold(max: u32, c: u32)
    requires
        c < u32::MAX,
    ensures
        bump_counter_spec(Some(c), max).1 <==> c + 1 > max,
        !bump_counter_spec(None, max).1,
{
}


// ---------------------------------------------------------------------------
// Deciding a login
// ---------------------------------------------------------------------------

/// A password login is accepted when the client is not banned and the user exists,
/// is active and the password matches.
pub open spec fn password_login_accepted(banned: bool, user: Option<User>, password: Seq<char>) -> bool {
    &&& !banned
    &&& user is Some
    &&& user->0.is_active
    &&& user->0.hash() is Some
    &&& spec_password_hash_parses(user->0.hash()->0)
    &&& spec_argon2_verifies(user->0.hash()->0, password)
}

/// A key login is accepted when the client is not banned and the user exists, is
/// active and the key is one of its authorized keys.
pub open spec fn key_login_accepted(banned: bool, user: Option<User>, key: PublicKey) -> bool {
    &&& !banned
    &&& user is Some
    &&& user->0.is_active
    &&& user->0.keys() is Some
    &&& keys_admit(user->0.keys()->0, key)
}

/// Decides a password login.
pub fn auth_password(banned: bool, user: Option<&User>, password: &str) -> (accepted: bool)
    ensures
        accepted == password_login_accepted(
            banned,
            match user {
                Some(u) => Some(*u),
                None => None,
            },
            password@,
        ),
{
    if banned {
        return false;
    }
    match user {
        Some(u) => {
            if !u.is_active {
                return false;
            }
            u.verify_password(password)
        },
        None => false,
    }
}

/// Decides a public-key login.
pub fn auth_publickey(banned: bool, user: Option<&User>, public_key: &PublicKey) -> (accepted: bool)
    ensures
        accepted == key_login_accepted(
            banned,
            match user {
                Some(u) => Some(*u),
                None => None,
            },
            *public_key,
        ),
{
    if banned {
        return false;
    }
    match user {
        Some(u) => {
            if !u.is_active {
                return false;
            }
            u.verify_authorized_keys(public_key)
        },
        None => false,
    }
}

/// A banned client is never let in, whatever the user and credentials.
pub proof fn law_banned_refused(user: Option<User>, password: Seq<char>, key: PublicKey)
    ensures
        !password_login_accepted(true, user, password),
        !key_login_accepted(true, user, key),
{
}

/// An inactive user is never let in.
pub proof fn law_inactive_user_refused(banned: bool, u: User, password: Seq<char>, key: PublicKey)
    requires
        !u.is_active,
    ensures
        !password_login_accepted(banned, Some(u), password),
        !key_login_accepted(banned, Some(u), key),
{
}

/// Once a connection's count exceeds the maximum, every later attempt is refused.
pub proof fn law_attempts_stay_refused(count: u32, max: u32)
    requires
        count > max,
        count < u32::MAX,
    ensures
        count + 1 > max,
{
}

} // verus!
