//! Server configuration: log levels, defaults, the listen address and the checks a
//! configuration must pass before the server starts.
use vstd::prelude::*;
use core::time::Duration;
use aes_gcm::KeyInit;
use base64::Engine;
use crate::policy::IpAddress;
use crate::text::{char_utf8_len, chars_to_string, decimal, decimal_of, push_all, str_chars, str_eq_chars};

verus! {

broadcast use vstd::string::group_string_axioms;

/// Verbosity of the server log.
#[derive(Clone, Copy, Debug, PartialEq, Eq, Structural)]
pub enum LogLevel {
    Error,
    Warn,
    Info,
    Debug,
    Trace,
}

impl Default for LogLevel {
    fn default() -> (r: Self)
        ensures
            r == LogLevel::Info,
    {
        LogLevel::Info
    }
}

/// The lowercase name of each level.
pub open spec fn level_name(l: LogLevel) -> Seq<char> {
    match l {
        LogLevel::Error => seq!['e', 'r', 'r', 'o', 'r'],
        LogLevel::Warn => seq!['w', 'a', 'r', 'n'],
        LogLevel::Info => seq!['i', 'n', 'f', 'o'],
        LogLevel::Debug => seq!['d', 'e', 'b', 'u', 'g'],
        LogLevel::Trace => seq!['t', 'r', 'a', 'c', 'e'],
    }
}

/// The level with a given lowercase name.
pub open spec fn level_of_name(s: Seq<char>) -> Option<LogLevel> {
    if s == level_name(LogLevel::Error) {
        Some(LogLevel::Error)
    } else if s == level_name(LogLevel::Warn) {
        Some(LogLevel::Warn)
    } else if s == level_name(LogLevel::Info) {
        Some(LogLevel::Info)
    } else if s == level_name(LogLevel::Debug) {
        Some(LogLevel::Debug)
    } else if s == level_name(LogLevel::Trace) {
        Some(LogLevel::Trace)
    } else {
        None
    }
}

/// What `str::to_lowercase` gives (Unicode lowercase mapping).
pub uninterp spec fn spec_to_lowercase(s: Seq<char>) -> Seq<char>;

/// Every character is ASCII.
pub open spec fn all_ascii(s: Seq<char>) -> bool {
    forall|i: int| 0 <= i < s.len() ==> (s[i] as u32) < 128
}

/// `c` with `A`..`Z` turned into `a`..`z`.
pub open spec fn ascii_lower_char(c: char) -> char {
    if 'A' <= c <= 'Z' {
        ((c as u32) + 32) as char
    } else {
        c
    }
}

/// `c` with `a`..`z` turned into `A`..`Z`.
pub open spec fn ascii_upper_char(c: char) -> char {
    if 'a' <= c <= 'z' {
        ((c as u32) - 32) as char
    } else {
        c
    }
}

/// The text with its ASCII capitals made small.
pub open spec fn ascii_lower(s: Seq<char>) -> Seq<char> {
    s.map_values(|c: char| ascii_lower_char(c))
}

/// The text with its ASCII small letters made capitals.
pub open spec fn ascii_upper(s: Seq<char>) -> Seq<char> {
    s.map_values(|c: char| ascii_upper_char(c))
}

/// `str::to_lowercase`. Claimed: the text is the named lowercase form; for an ASCII
/// text that is each capital letter made small and every other character kept (the
/// Unicode lowercase mapping on ASCII, as std documents it).
#[verifier::external_body]
fn to_lowercase(s: &str) -> (r: String)
    ensures
        r@ == spec_to_lowercase(s@),
        all_ascii(s@) ==> r@ == ascii_lower(s@),
{
    s.to_lowercase()
}

/// Why a configuration was refused.
#[derive(Debug, PartialEq, Eq)]
pub enum ConfigError {
    /// Not one of `error`, `warn`, `info`, `debug`, `trace`.
    InvalidLogLevel { level: String },
    /// The listen address cannot be read; `reason` says what name resolution gave.
    InvalidListenAddress { addr: String, reason: String },
    /// `max_auth_attempts_per_conn` is zero.
    MaxAuthAttemptsZero,
    /// No secret token is configured.
    MissingSecretToken,
    /// The secret token is empty.
    EmptySecretToken,
    /// The secret token is not base64; the decoder's message.
    SecretTokenDecode { reason: String },
    /// The decoded secret token is not a 256-bit key.
    SecretTokenKeyError,
}

impl LogLevel {
    /// The level named by an already lowercased text.
    pub fn from_lowercase(s: &str) -> (r: Option<LogLevel>)
        ensures
            r == level_of_name(s@),
    {
        if str_eq_chars(s, &vec!['e', 'r', 'r', 'o', 'r']) {
            Some(LogLevel::Error)
        } else if str_eq_chars(s, &vec!['w', 'a', 'r', 'n']) {
            Some(LogLevel::Warn)
        } else if str_eq_chars(s, &vec!['i', 'n', 'f', 'o']) {
            Some(LogLevel::Info)
        } else if str_eq_chars(s, &vec!['d', 'e', 'b', 'u', 'g']) {
            Some(LogLevel::Debug)
        } else if str_eq_chars(s, &vec!['t', 'r', 'a', 'c', 'e']) {
            Some(LogLevel::Trace)
        } else {
            None
        }
    }

    /// Parses a level name, ignoring case (`FromStr`).
    pub fn from_str(s: &str) -> (r: Result<LogLevel, ConfigError>)
        ensures
            match r {
                Ok(l) => level_of_name(spec_to_lowercase(s@)) == Some(l),
                Err(e) => level_of_name(spec_to_lowercase(s@)) is None && e == (ConfigError::InvalidLogLevel { level: e->level }) && e->level@ == s@,
            },
            all_ascii(s@) ==> match r {
                Ok(l) => level_of_name(ascii_lower(s@)) == Some(l),
                Err(_) => level_of_name(ascii_lower(s@)) is None,
            },
    {
        let lower = to_lowercase(s);
        match LogLevel::from_lowercase(lower.as_str()) {
            Some(l) => Ok(l),
            None => Err(ConfigError::InvalidLogLevel { level: chars_to_string(&str_chars(s)) }),
        }
    }

    /// The lowercase name of the level (what `Display` writes).
    pub fn as_str(&self) -> (r: &'static str)
        ensures
            r@ == level_name(*self),
    {
        match self {
            LogLevel::Error => {
                proof {
                    reveal_strlit("error");
                }
                "error"
            },
            LogLevel::Warn => {
                proof {
                    reveal_strlit("warn");
                }
                "warn"
            },
            LogLevel::Info => {
                proof {
                    reveal_strlit("info");
                }
                "info"
            },
            LogLevel::Debug => {
                proof {
                    reveal_strlit("debug");
                }
                "debug"
            },
            LogLevel::Trace => {
                proof {
                    reveal_strlit("trace");
                }
                "trace"
            },
        }
    }
}

/// A level's name, as written or in capitals, is ASCII and is read back (by
/// [`LogLevel::from_str`], which lowercases ASCII text) as that level.
pub proof fn law_level_text_roundtrip(l: LogLevel)
    ensures
        all_ascii(level_name(l)),
        all_ascii(ascii_upper(level_name(l))),
        level_of_name(ascii_lower(level_name(l))) == Some(l),
        level_of_name(ascii_lower(ascii_upper(level_name(l)))) == Some(l),
{
    let n = level_name(l);
    assert(ascii_lower(n) =~= n);
    assert(ascii_lower(ascii_upper(n)) =~= n);
    law_level_name_roundtrip(l);
}

/// Each level's name is read back as that level.
pub proof fn law_level_name_roundtrip(l: LogLevel)
    ensures
        level_of_name(level_name(l)) == Some(l),
{
    assert(level_name(LogLevel::Error) != level_name(LogLevel::Warn));
    assert(level_name(LogLevel::Error) != level_name(LogLevel::Info));
    assert(level_name(LogLevel::Error) != level_name(LogLevel::Debug));
    assert(level_name(LogLevel::Error) != level_name(LogLevel::Trace));
    assert(level_name(LogLevel::Warn) != level_name(LogLevel::Info));
    assert(level_name(LogLevel::Warn) != level_name(LogLevel::Debug));
    assert(level_name(LogLevel::Warn) != level_name(LogLevel::Trace));
    assert(level_name(LogLevel::Info) != level_name(LogLevel::Debug));
    assert(level_name(LogLevel::Info) != level_name(LogLevel::Trace));
    assert(level_name(LogLevel::Debug) != level_name(LogLevel::Trace));
}

// ---------------------------------------------------------------------------
// Defaults
// ---------------------------------------------------------------------------

/// What `Duration::from_secs` gives.
pub uninterp spec fn spec_duration_from_secs(secs: u64) -> Duration;

/// `Duration::from_secs`. Claimed: the named duration, `secs` seconds long (counted
/// in nanoseconds by `Duration::as_nanos`).
#[verifier::external_body]
pub(crate) fn duration_from_secs(secs: u64) -> (d: Duration)
    ensures
        d == spec_duration_from_secs(secs),
        crate::asciinema::asciicast::spec_duration_nanos(d) == secs * 1_000_000_000,
{
    Duration::from_secs(secs)
}

/// How long a banned client or user stays banned: 15 minutes.
pub fn default_unban_duration() -> (d: Duration)
    ensures
        d == spec_duration_from_secs(900),
        crate::asciinema::asciicast::spec_duration_nanos(d) == 900_000_000_000,
{
    duration_from_secs(900)
}

/// How long an idle connection to a target is kept: 30 minutes.
pub fn default_cache_idle_time() -> (d: Duration)
    ensures
        d == spec_duration_from_secs(1800),
        crate::asciinema::asciicast::spec_duration_nanos(d) == 1800_000_000_000,
{
    duration_from_secs(1800)
}

/// Where session recordings are written.
pub fn default_record_path() -> (s: String)
    ensures
        s@ == "./record"@,
{
    "./record".to_string()
}

/// Authentication attempts allowed on one connection.
pub fn default_max_auth_attempts_per_conn() -> (n: u32)
    ensures
        n == 5,
{
    5
}

/// Failed attempts allowed from one address before it is banned.
pub fn default_max_ip_attempts() -> (n: u32)
    ensures
        n == 100,
{
    100
}

/// Failed attempts allowed for one user before it is banned.
pub fn default_max_user_attempts() -> (n: u32)
    ensures
        n == 100,
{
    100
}

// ---------------------------------------------------------------------------
// Configuration
// ---------------------------------------------------------------------------

/// A socket address: an IP address and a port; an IPv6 address also has its flow
/// information and scope id (both 0 for IPv4).
#[derive(Clone, Copy, Debug, PartialEq, Eq, Structural)]
pub struct SocketAddress {
    pub ip: IpAddress,
    pub port: u16,
    pub flowinfo: u32,
    pub scope_id: u32,
}

/// Where the server listens: a socket address, or a text such as `*:2222`,
/// `2222`, `localhost:2222` or `192.168.1.1:2222`.
#[derive(Debug)]
pub enum ListenConfig {
    SocketAddr(SocketAddress),
    String(String),
}

/// The database backend.
#[derive(Debug)]
pub enum DatabaseConfig {
    Sqlite { path: String },
}

impl DatabaseConfig {
    /// SQLite in `rustion.db`.
    pub fn default() -> (d: Self)
        ensures
            d matches DatabaseConfig::Sqlite { path } && path@ == "rustion.db"@,
    {
        DatabaseConfig::Sqlite { path: "rustion.db".to_string() }
    }

    /// `sqlite(path)` (what `Display` writes).
    pub fn to_display_string(&self) -> (s: String)
        ensures
            match self {
                DatabaseConfig::Sqlite { path } => s@ == "sqlite("@ + path@ + ")"@,
            },
    {
        match self {
            DatabaseConfig::Sqlite { path } => {
                let mut v = str_chars("sqlite(");
                let p = str_chars(path.as_str());
                let mut i: usize = 0;
                let ghost start = v@;
                while i < p.len()
                    invariant
                        i <= p.len(),
                        v@ == start + p@.take(i as int),
                    decreases p.len() - i,
                {
                    v.push(p[i]);
                    i = i + 1;
                    assert(p@.take(i as int) == p@.take((i - 1) as int).push(p@[i - 1]));
                }
                assert(p@.take(p.len() as int) =~= p@);
                proof {
                    reveal_strlit(")");
                }
                let ghost before = v@;
                v.push(')');
                assert(v@ =~= before + ")"@);
                chars_to_string(&v)
            },
        }
    }
}

/// The server configuration.
pub struct Config {
    pub listen: ListenConfig,
    pub server_key: String,
    pub secret_key: Option<String>,
    pub max_auth_attempts_per_conn: u32,
    /// Failed attempts allowed from one address.
    pub max_ip_attempts: u32,
    /// Failed attempts allowed for one user.
    pub max_user_attempts: u32,
    /// How long bans last.
    pub unban_duration: Duration,
    pub reuse_target_connection: bool,
    pub target_cache_duration: Duration,
    pub inactivity_timeout: Option<Duration>,
    pub log_level: LogLevel,
    pub database: DatabaseConfig,
    pub enable_record: bool,
    pub record_input: bool,
    pub record_path: String,
}

/// The listen address as far as it can be read without name resolution: a socket
/// address, or the text to resolve.
#[derive(Debug)]
pub enum ListenAddr {
    Ready(SocketAddress),
    Resolve(String),
}

/// What `core::net::SocketAddr::from_str` gives.
pub uninterp spec fn spec_parse_socket_addr(s: Seq<char>) -> Option<SocketAddress>;

/// `SocketAddr::from_str` (`ip:port`, IPv6 in brackets). Claimed: the named parse.
#[verifier::external_body]
fn parse_socket_addr(s: &str) -> (r: Option<SocketAddress>)
    ensures
        r == spec_parse_socket_addr(s@),
{
    match s.parse::<core::net::SocketAddr>() {
        Ok(core::net::SocketAddr::V4(a)) => Some(SocketAddress { ip: IpAddress::V4(u32::from(*a.ip())), port: a.port(), flowinfo: 0, scope_id: 0 }),
        Ok(core::net::SocketAddr::V6(a)) => Some(SocketAddress { ip: IpAddress::V6(u128::from(*a.ip())), port: a.port(), flowinfo: a.flowinfo(), scope_id: a.scope_id() }),
        Err(_) => None,
    }
}

/// `s` with every `c` replaced by `r` (`str::replace`).
pub open spec fn replace_char(s: Seq<char>, c: char, r: Seq<char>) -> Seq<char>
    decreases s.len(),
{
    if s.len() == 0 {
        s
    } else if s.last() == c {
        replace_char(s.drop_last(), c, r) + r
    } else {
        replace_char(s.drop_last(), c, r).push(s.last())
    }
}

pub open spec fn any_address() -> Seq<char> {
    seq!['0', '.', '0', '.', '0', '.', '0']
}

/// The address text to read: a leading `*` stands for every address (`0.0.0.0`,
/// each `*` replaced), a text without `:` is a port on every address.
pub open spec fn listen_text(s: Seq<char>) -> Seq<char> {
    if s.len() > 0 && s[0] == '*' {
        replace_char(s, '*', any_address())
    } else if !s.contains(':') {
        any_address() + seq![':'] + s
    } else {
        s
    }
}

fn append_chars(v: &mut Vec<char>, s: &Vec<char>)
    ensures
        final(v)@ == old(v)@ + s@,
{
    let mut i: usize = 0;
    let ghost start = v@;
    while i < s.len()
        invariant
            i <= s.len(),
            v@ == start + s@.take(i as int),
        decreases s.len() - i,
    {
        v.push(s[i]);
        i = i + 1;
        assert(s@.take(i as int) == s@.take((i - 1) as int).push(s@[i - 1]));
    }
    assert(s@.take(s.len() as int) =~= s@);
}

fn listen_text_of(s: &str) -> (r: Vec<char>)
    ensures
        r@ == listen_text(s@),
{
    let cs = str_chars(s);
    let any = vec!['0', '.', '0', '.', '0', '.', '0'];
    if cs.len() > 0 && cs[0] == '*' {
        let mut r: Vec<char> = Vec::new();
        let mut i: usize = 0;
        while i < cs.len()
            invariant
                i <= cs.len(),
                any@ == any_address(),
                r@ == replace_char(cs@.take(i as int), '*', any_address()),
            decreases cs.len() - i,
        {
            assert(cs@.take((i + 1) as int).drop_last() =~= cs@.take(i as int));
            if cs[i] == '*' {
                append_chars(&mut r, &any);
            } else {
                r.push(cs[i]);
            }
            i = i + 1;
        }
        assert(cs@.take(cs.len() as int) =~= cs@);
        r
    } else {
        let mut has_colon = false;
        let mut i: usize = 0;
        while i < cs.len()
            invariant
                i <= cs.len(),
                has_colon == cs@.take(i as int).contains(':'),
            decreases cs.len() - i,
        {
            proof {
                let t = cs@.take(i as int);
                let t1 = cs@.take((i + 1) as int);
                if t.contains(':') {
                    let j = choose|j: int| 0 <= j < t.len() && t[j] == ':';
                    assert(t1[j] == ':');
                }
                if t1.contains(':') && cs@[i as int] != ':' {
                    let j = choose|j: int| 0 <= j < t1.len() && t1[j] == ':';
                    assert(t[j] == ':');
                }
                if cs@[i as int] == ':' {
                    assert(t1[i as int] == ':');
                }
            }
            if cs[i] == ':' {
                has_colon = true;
            }
            i = i + 1;
        }
        assert(cs@.take(cs.len() as int) =~= cs@);
        if !has_colon {
            let mut r = any;
            r.push(':');
            append_chars(&mut r, &cs);
            r
        } else {
            cs
        }
    }
}

/// What can be decided of a configured listen address without name resolution.
pub open spec fn listen_addr_spec(l: ListenConfig) -> ListenAddrView {
    match l {
        ListenConfig::SocketAddr(a) => ListenAddrView::Ready(a),
        ListenConfig::String(s) => match spec_parse_socket_addr(listen_text(s@)) {
            Some(a) => ListenAddrView::Ready(a),
            None => ListenAddrView::Resolve(listen_text(s@)),
        },
    }
}

/// [`ListenAddr`] with the text as characters.
pub enum ListenAddrView {
    Ready(SocketAddress),
    Resolve(Seq<char>),
}

impl ListenAddr {
    pub open spec fn view(self) -> ListenAddrView {
        match self {
            ListenAddr::Ready(a) => ListenAddrView::Ready(a),
            ListenAddr::Resolve(s) => ListenAddrView::Resolve(s@),
        }
    }
}

/// The kinds of [`ConfigError`], without the messages.
#[derive(Clone, Copy, Debug, PartialEq, Eq, Structural)]
pub enum ConfigErrorKind {
    InvalidLogLevel,
    InvalidListenAddress,
    MaxAuthAttemptsZero,
    MissingSecretToken,
    EmptySecretToken,
    SecretTokenDecode,
    SecretTokenKeyError,
}

/// The text of a configuration error.
pub open spec fn config_error_text(e: ConfigError) -> Seq<char> {
    match e {
        ConfigError::InvalidLogLevel { level } => "Invalid log level '"@ + level@
            + "'. Valid levels are: error, warn, info, debug, trace"@,
        ConfigError::InvalidListenAddress { addr, reason } => "Invalid listen address '"@ + addr@ + "': "@ + reason@,
        ConfigError::MaxAuthAttemptsZero => "max_auth_attempts must be greater than 0"@,
        ConfigError::MissingSecretToken => "No secret token"@,
        ConfigError::EmptySecretToken => "Secret token is empty"@,
        ConfigError::SecretTokenDecode { reason } => "Failed to parse secret token: "@ + reason@,
        ConfigError::SecretTokenKeyError => "Failed to parse secret token: Invalid Length"@,
    }
}

impl ConfigError {
    /// The text shown for the error.
    pub fn message(&self) -> (s: String)
        ensures
            s@ == config_error_text(*self),
    {
        match self {
            ConfigError::InvalidLogLevel { level } => {
                let mut v = str_chars("Invalid log level '");
                append_chars(&mut v, &str_chars(level.as_str()));
                append_chars(&mut v, &str_chars("'. Valid levels are: error, warn, info, debug, trace"));
                chars_to_string(&v)
            },
            ConfigError::InvalidListenAddress { addr, reason } => {
                let mut v = str_chars("Invalid listen address '");
                append_chars(&mut v, &str_chars(addr.as_str()));
                append_chars(&mut v, &str_chars("': "));
                append_chars(&mut v, &str_chars(reason.as_str()));
                chars_to_string(&v)
            },
            ConfigError::MaxAuthAttemptsZero => "max_auth_attempts must be greater than 0".to_string(),
            ConfigError::MissingSecretToken => "No secret token".to_string(),
            ConfigError::EmptySecretToken => "Secret token is empty".to_string(),
            ConfigError::SecretTokenDecode { reason } => {
                let mut v = str_chars("Failed to parse secret token: ");
                append_chars(&mut v, &str_chars(reason.as_str()));
                chars_to_string(&v)
            },
            ConfigError::SecretTokenKeyError => "Failed to parse secret token: Invalid Length".to_string(),
        }
    }

    pub open spec fn kind(self) -> ConfigErrorKind {
        match self {
            ConfigError::InvalidLogLevel { .. } => ConfigErrorKind::InvalidLogLevel,
            ConfigError::InvalidListenAddress { .. } => ConfigErrorKind::InvalidListenAddress,
            ConfigError::MaxAuthAttemptsZero => ConfigErrorKind::MaxAuthAttemptsZero,
            ConfigError::MissingSecretToken => ConfigErrorKind::MissingSecretToken,
            ConfigError::EmptySecretToken => ConfigErrorKind::EmptySecretToken,
            ConfigError::SecretTokenDecode { .. } => ConfigErrorKind::SecretTokenDecode,
            ConfigError::SecretTokenKeyError => ConfigErrorKind::SecretTokenKeyError,
        }
    }
}

/// What base64 (standard alphabet, padded) decoding gives for a text.
pub uninterp spec fn spec_base64_decode(s: Seq<char>) -> Option<Seq<u8>>;

/// `base64::engine::general_purpose::STANDARD.decode`. Claimed: the named decoding;
/// the decoder's message on failure is not stated.
#[verifier::external_body]
pub(crate) fn base64_decode(s: &str) -> (r: Result<Vec<u8>, String>)
    ensures
        match r {
            Ok(v) => spec_base64_decode(s@) == Some(v@),
            Err(_) => spec_base64_decode(s@) is None,
        },
{
    base64::engine::general_purpose::STANDARD.decode(s).map_err(|e| e.to_string())
}

/// `Aes256Gcm::new_from_slice`: claimed to accept exactly keys of 32 bytes (the cipher's key size).
#[verifier::external_body]
fn aes256_key_accepted(key: &Vec<u8>) -> (r: bool)
    ensures
        r == (key.len() == 32),
{
    aes_gcm::Aes256Gcm::new_from_slice(key).is_ok()
}

/// A fresh random key for AES-256-GCM (`Aes256Gcm::generate_key` with the OS
/// generator). Claimed of every outcome: 32 bytes (the cipher's key size).
#[verifier::external_body]
fn generate_aes256_key() -> (k: Vec<u8>)
    ensures
        k.len() == 32,
{
    aes_gcm::Aes256Gcm::generate_key(aes_gcm::aead::OsRng).to_vec()
}

/// `base64::engine::general_purpose::STANDARD.encode` (standard alphabet, padded).
/// Claimed: decoding the text gives back the bytes, and the text has four characters
/// for each started group of three bytes.
#[verifier::external_body]
fn base64_encode(bytes: &Vec<u8>) -> (s: String)
    ensures
        spec_base64_decode(s@) == Some(bytes@),
        s@.len() == 4 * ((bytes.len() + 2) / 3),
{
    base64::engine::general_purpose::STANDARD.encode(bytes)
}

/// A fresh random 256-bit key, base64 encoded: 44 characters that decode to 32 bytes.
fn generate_secret_token() -> (s: String)
    ensures
        s@.len() == 44,
        spec_base64_decode(s@) is Some,
        spec_base64_decode(s@)->0.len() == 32,
{
    let key = generate_aes256_key();
    base64_encode(&key)
}

/// The first check (after the listen address) that a configuration fails, if any.
pub open spec fn settings_failure(max_auth: u32, secret: Option<Seq<char>>) -> Option<ConfigErrorKind> {
    if max_auth == 0 {
        Some(ConfigErrorKind::MaxAuthAttemptsZero)
    } else {
        match secret {
            None => Some(ConfigErrorKind::MissingSecretToken),
            Some(k) => if k.len() == 0 {
                Some(ConfigErrorKind::EmptySecretToken)
            } else {
                match spec_base64_decode(k) {
                    None => Some(ConfigErrorKind::SecretTokenDecode),
                    Some(b) => if b.len() != 32 {
                        Some(ConfigErrorKind::SecretTokenKeyError)
                    } else {
                        None
                    },
                }
            },
        }
    }
}

pub open spec fn opt_view(s: Option<String>) -> Option<Seq<char>> {
    match s {
        Some(x) => Some(x@),
        None => None,
    }
}

impl Config {
    /// The configured secret token.
    pub open spec fn secret(&self) -> Option<Seq<char>> {
        opt_view(self.secret_key)
    }

    /// The default configuration: listen on `0.0.0.0:2222`, key `server_key.pem`, no
    /// secret token, the default limits and durations, log level `info`, SQLite,
    /// no recording, recordings under `./record`.
    pub fn default() -> (c: Self)
        ensures
            c.listen matches ListenConfig::String(s) && s@ == "0.0.0.0:2222"@,
            c.server_key@ == "server_key.pem"@,
            c.secret() is None,
            c.max_auth_attempts_per_conn == 5,
            c.max_ip_attempts == 100,
            c.max_user_attempts == 100,
            c.unban_duration == spec_duration_from_secs(900),
            !c.reuse_target_connection,
            c.target_cache_duration == spec_duration_from_secs(1800),
            c.inactivity_timeout is None,
            c.log_level == LogLevel::Info,
            c.database matches DatabaseConfig::Sqlite { path } && path@ == "rustion.db"@,
            !c.enable_record,
            !c.record_input,
            c.record_path@ == "./record"@,
    {
        Config {
            listen: ListenConfig::String("0.0.0.0:2222".to_string()),
            server_key: "server_key.pem".to_string(),
            secret_key: None,
            max_auth_attempts_per_conn: default_max_auth_attempts_per_conn(),
            max_ip_attempts: default_max_ip_attempts(),
            max_user_attempts: default_max_user_attempts(),
            unban_duration: default_unban_duration(),
            reuse_target_connection: false,
            target_cache_duration: default_cache_idle_time(),
            inactivity_timeout: None,
            log_level: LogLevel::default(),
            database: DatabaseConfig::default(),
            enable_record: false,
            record_input: false,
            record_path: default_record_path(),
        }
    }

    /// Sets the secret token (as read from a configuration file).
    pub fn with_secret_token(self, token: Option<String>) -> (c: Self)
        ensures
            c == (Config { secret_key: token, ..self }),
    {
        Config { secret_key: token, ..self }
    }

    /// Takes the secret token out, leaving none.
    pub fn take_secret_token(&mut self) -> (t: Option<String>)
        ensures
            t == old(self).secret_key,
            *final(self) == (Config { secret_key: None, ..*old(self) }),
    {
        self.secret_key.take()
    }

    /// The configuration with a fresh random secret token.
    pub fn gen_secret_token(self) -> (c: Self)
        ensures
            c.secret() is Some,
            c.secret()->0.len() == 44,
            spec_base64_decode(c.secret()->0) is Some,
            spec_base64_decode(c.secret()->0)->0.len() == 32,
            c == (Config { secret_key: c.secret_key, ..self }),
    {
        let encoded = generate_secret_token();
        Config { secret_key: Some(encoded), ..self }
    }

    /// Reads the listen address as far as possible without name resolution.
    pub fn parse_listen_addr(&self) -> (r: ListenAddr)
        ensures
            r.view() == listen_addr_spec(self.listen),
    {
        match &self.listen {
            ListenConfig::SocketAddr(a) => ListenAddr::Ready(*a),
            ListenConfig::String(s) => {
                let t = listen_text_of(s.as_str());
                let text = chars_to_string(&t);
                match parse_socket_addr(text.as_str()) {
                    Some(a) => ListenAddr::Ready(a),
                    None => ListenAddr::Resolve(text),
                }
            },
        }
    }

    /// The checks after the listen address: at least one authentication attempt per
    /// connection, and a non-empty base64 secret token holding a 256-bit key.
    pub fn check_settings(&self) -> (r: Result<(), ConfigError>)
        ensures
            match r {
                Ok(()) => settings_failure(self.max_auth_attempts_per_conn, self.secret()) is None,
                Err(e) => settings_failure(self.max_auth_attempts_per_conn, self.secret()) == Some(e.kind()),
            },
    {
        if self.max_auth_attempts_per_conn == 0 {
            return Err(ConfigError::MaxAuthAttemptsZero);
        }
        let sk = match self.secret_key.as_ref() {
            Some(token) => token,
            None => return Err(ConfigError::MissingSecretToken),
        };
        if str_chars(sk.as_str()).len() == 0 {
            return Err(ConfigError::EmptySecretToken);
        }
        let key = match base64_decode(sk.as_str()) {
            Ok(k) => k,
            Err(m) => return Err(ConfigError::SecretTokenDecode { reason: m }),
        };
        if !aes256_key_accepted(&key) {
            return Err(ConfigError::SecretTokenKeyError);
        }
        Ok(())
    }
}

/// What name resolution gave for a listen text.
pub enum Resolution {
    /// The first address found.
    Resolved(SocketAddress),
    /// The lookup failed, with the system's message.
    Failed(String),
    /// The lookup found no address.
    Empty,
}

/// Why resolving `text` gave no address.
pub open spec fn resolution_failure_text(text: Seq<char>, r: Resolution) -> Seq<char> {
    match r {
        Resolution::Failed(m) => "Failed to resolve address '"@ + text + "': "@ + m@,
        _ => "No address resolved for '"@ + text + "'"@,
    }
}

impl Config {
    /// The full check of the configuration: the listen address, then the other
    /// settings. `resolved` is what name resolution gave for a listen text that is
    /// not a socket address; it is not looked at otherwise. A text that resolved to
    /// nothing is refused with the listen text and the reason.
    pub fn validate(&self, resolved: Resolution) -> (r: Result<(), ConfigError>)
        ensures
            match listen_addr_spec(self.listen) {
                ListenAddrView::Resolve(text) if !(resolved is Resolved) => r matches Err(
                    ConfigError::InvalidListenAddress { addr, reason },
                ) && self.listen matches ListenConfig::String(s) && addr@ == s@
                    && reason@ == resolution_failure_text(text, resolved),
                _ => match r {
                    Ok(()) => settings_failure(self.max_auth_attempts_per_conn, self.secret()) is None,
                    Err(e) => settings_failure(self.max_auth_attempts_per_conn, self.secret()) == Some(
                        e.kind(),
                    ),
                },
            },
    {
        match self.parse_listen_addr() {
            ListenAddr::Ready(_) => {},
            ListenAddr::Resolve(text) => {
                let reason = match &resolved {
                    Resolution::Resolved(_) => None,
                    Resolution::Failed(m) => {
                        let mut v = str_chars("Failed to resolve address '");
                        append_chars(&mut v, &str_chars(text.as_str()));
                        append_chars(&mut v, &str_chars("': "));
                        append_chars(&mut v, &str_chars(m.as_str()));
                        Some(chars_to_string(&v))
                    },
                    Resolution::Empty => {
                        let mut v = str_chars("No address resolved for '");
                        append_chars(&mut v, &str_chars(text.as_str()));
                        append_chars(&mut v, &str_chars("'"));
                        Some(chars_to_string(&v))
                    },
                };
                if let Some(reason) = reason {
                    let addr = match &self.listen {
                        ListenConfig::String(s) => s.clone(),
                        ListenConfig::SocketAddr(_) => String::new(),
                    };
                    return Err(ConfigError::InvalidListenAddress { addr, reason });
                }
            },
        }
        self.check_settings()
    }

    /// Applies the command-line overrides: a listen text, a server key path and a log
    /// level name (refused when it names no level).
    pub fn apply_overrides(
        &mut self,
        listen: Option<String>,
        server_key: Option<String>,
        log_level: Option<String>,
    ) -> (r: Result<(), ConfigError>)
        ensures
            final(self).listen == match listen {
                Some(l) => ListenConfig::String(l),
                None => old(self).listen,
            },
            final(self).server_key == match server_key {
                Some(k) => k,
                None => old(self).server_key,
            },
            match log_level {
                Some(n) => match level_of_name(spec_to_lowercase(n@)) {
                    Some(l) => r is Ok && final(self).log_level == l,
                    None => r matches Err(ConfigError::InvalidLogLevel { level }) && level@ == n@
                        && final(self).log_level == old(self).log_level,
                },
                None => r is Ok && final(self).log_level == old(self).log_level,
            },
            final(self).secret_key == old(self).secret_key,
            final(self).max_auth_attempts_per_conn == old(self).max_auth_attempts_per_conn,
    {
        if let Some(l) = listen {
            self.listen = ListenConfig::String(l);
        }
        if let Some(k) = server_key {
            self.server_key = k;
        }
        if let Some(n) = log_level {
            match LogLevel::from_str(n.as_str()) {
                Ok(l) => {
                    self.log_level = l;
                },
                Err(e) => {
                    return Err(e);
                },
            }
        }
        Ok(())
    }
}

/// The command line of the server.
pub struct Cli {
    /// The configuration file.
    pub config: String,
    /// Write a default configuration file and stop.
    pub generate_config: bool,
    /// Set the service up and create the administrator.
    pub init_service: bool,
    /// Listen address, in place of the configured one.
    pub listen: Option<String>,
    /// Server key file, in place of the configured one.
    pub server_key: Option<String>,
    /// Log level, in place of the configured one.
    pub log_level: Option<String>,
}

/// A freshly generated secret token passes the checks whenever attempts are allowed.
pub proof fn law_generated_token_accepted(max_auth: u32, s: Seq<char>)
    requires
        max_auth > 0,
        s.len() == 44,
        spec_base64_decode(s) is Some,
        spec_base64_decode(s)->0.len() == 32,
    ensures
        settings_failure(max_auth, Some(s)) is None,
{
}

// ---------------------------------------------------------------------------
// The configuration as text
// ---------------------------------------------------------------------------

/// What `Display` writes for an IPv6 socket address (`[address]:port`, the address in
/// its shortest standard form, followed by `%` and the scope id when that is not 0).
pub uninterp spec fn spec_ipv6_socket_text(ip: u128, port: u16, scope_id: u32) -> Seq<char>;

/// The text of an IPv4 socket address: the four bytes in decimal joined by dots, a
/// colon and the port.
pub open spec fn ipv4_socket_text(x: u32, port: u16) -> Seq<char> {
    decimal((x / 16777216) as nat) + "."@ + decimal(((x / 65536) % 256) as nat) + "."@ + decimal(
        ((x / 256) % 256) as nat,
    ) + "."@ + decimal((x % 256) as nat) + ":"@ + decimal(port as nat)
}

/// The text of a socket address.
pub open spec fn socket_text(a: SocketAddress) -> Seq<char> {
    match a.ip {
        IpAddress::V4(x) => ipv4_socket_text(x, a.port),
        IpAddress::V6(x) => spec_ipv6_socket_text(x, a.port, a.scope_id),
    }
}

/// `Display` of `core::net::SocketAddr`. Claimed: for IPv4 the dotted decimal address,
/// a colon and the port (as the standard library documents); for IPv6 the named text.
#[verifier::external_body]
fn socket_addr_text(a: &SocketAddress) -> (s: String)
    ensures
        a.ip matches IpAddress::V4(x) ==> s@ == ipv4_socket_text(x, a.port),
        a.ip matches IpAddress::V6(x) ==> s@ == spec_ipv6_socket_text(x, a.port, a.scope_id),
{
    let addr = match a.ip {
        IpAddress::V4(x) => core::net::SocketAddr::from((core::net::Ipv4Addr::from(x), a.port)),
        IpAddress::V6(x) => core::net::SocketAddr::V6(
            core::net::SocketAddrV6::new(core::net::Ipv6Addr::from(x), a.port, a.flowinfo, a.scope_id),
        ),
    };
    format!("{}", addr)
}

/// What `humantime::format_duration` writes for a duration.
pub uninterp spec fn spec_format_duration(d: Duration) -> Seq<char>;

/// `humantime::format_duration`, written out. Claimed: the named text of the duration.
#[verifier::external_body]
fn format_duration(d: &Duration) -> (s: String)
    ensures
        s@ == spec_format_duration(*d),
{
    humantime::format_duration(*d).to_string()
}

impl ListenConfig {
    /// The socket address, or the text as given (what `Display` writes).
    pub fn to_display_string(&self) -> (s: String)
        ensures
            s@ == match self {
                ListenConfig::SocketAddr(a) => socket_text(*a),
                ListenConfig::String(t) => t@,
            },
    {
        match self {
            ListenConfig::SocketAddr(a) => socket_addr_text(a),
            ListenConfig::String(t) => t.clone(),
        }
    }
}

/// Whether the first `n` bytes of the UTF-8 encoding of `s` end on a character.
pub open spec fn byte_boundary(s: Seq<char>, n: nat) -> bool
    decreases s.len(),
{
    if n == 0 {
        true
    } else if s.len() == 0 {
        false
    } else if char_utf8_len(s[0]) <= n {
        byte_boundary(s.drop_first(), (n - char_utf8_len(s[0])) as nat)
    } else {
        false
    }
}

/// The characters making up the first `n` bytes of `s`.
pub open spec fn byte_prefix(s: Seq<char>, n: nat) -> Seq<char>
    decreases s.len(),
{
    if n == 0 || s.len() == 0 || char_utf8_len(s[0]) > n {
        Seq::empty()
    } else {
        seq![s[0]] + byte_prefix(s.drop_first(), (n - char_utf8_len(s[0])) as nat)
    }
}

/// The characters making up the first `n` bytes of `s` (`str::split_at`).
fn split_at_bytes(s: &str, n: usize) -> (r: String)
    requires
        byte_boundary(s@, n as nat),
    ensures
        r@ == byte_prefix(s@, n as nat),
{
    let c = str_chars(s);
    let mut out: Vec<char> = Vec::new();
    let mut left: usize = n;
    let mut i: usize = 0;
    assert(c@.skip(0) =~= c@);
    assert(out@ + byte_prefix(c@.skip(0), n as nat) =~= byte_prefix(s@, n as nat));
    while left > 0
        invariant
            c@ == s@,
            i <= c.len(),
            byte_boundary(c@.skip(i as int), left as nat),
            out@ + byte_prefix(c@.skip(i as int), left as nat) == byte_prefix(s@, n as nat),
        decreases left,
    {
        let ghost rest = c@.skip(i as int);
        assert(rest.drop_first() =~= c@.skip(i + 1));
        let ch = c[i];
        let u = ch as u32;
        let w: usize = if u < 0x80 {
            1
        } else if u < 0x800 {
            2
        } else if u < 0x10000 {
            3
        } else {
            4
        };
        assert(out@.push(ch) + byte_prefix(c@.skip(i + 1), (left - w) as nat) =~= out@ + byte_prefix(rest, left as nat));
        out.push(ch);
        left = left - w;
        i = i + 1;
    }
    assert(out@ + byte_prefix(c@.skip(i as int), 0) =~= out@);
    chars_to_string(&out)
}

fn bool_string(b: bool) -> (s: String)
    ensures
        s@ == if b {
            "true"@
        } else {
            "false"@
        },
{
    if b {
        "true".to_string()
    } else {
        "false".to_string()
    }
}

/// The lines of a configuration as `Display` writes them: each `name: value`, ended by
/// a carriage return; each line after the first starts after a line feed and twelve
/// spaces. The secret key shows only its first ten bytes.
pub open spec fn config_text(c: Config) -> Seq<char> {
    let sep = "\r\n            "@;
    "listen: "@ + match c.listen {
        ListenConfig::SocketAddr(a) => socket_text(a),
        ListenConfig::String(t) => t@,
    } + sep + "server_key: "@ + c.server_key@ + sep + "secret_key: "@ + match c.secret_key {
        Some(k) => byte_prefix(k@, 10),
        None => "None"@,
    } + "..."@ + sep + "max_auth_attempts_per_conn: "@ + decimal(c.max_auth_attempts_per_conn as nat) + sep
        + "max_ip_attempts: "@ + decimal(c.max_ip_attempts as nat) + sep + "max_user_attempts: "@ + decimal(
        c.max_user_attempts as nat,
    ) + sep + "unban_duration: "@ + spec_format_duration(c.unban_duration) + sep + "reuse_target_connection: "@
        + (if c.reuse_target_connection {
        "true"@
    } else {
        "false"@
    }) + sep + "target_cache_duration: "@ + spec_format_duration(c.target_cache_duration) + sep
        + "inactivity_timeout: "@ + match c.inactivity_timeout {
        Some(d) => spec_format_duration(d),
        None => "None"@,
    } + sep + "log_level: "@ + level_name(c.log_level) + sep + "database: "@ + match c.database {
        DatabaseConfig::Sqlite { path } => "sqlite("@ + path@ + ")"@,
    } + sep + "enable_record: "@ + (if c.enable_record {
        "true"@
    } else {
        "false"@
    }) + sep + "record_input: "@ + (if c.record_input {
        "true"@
    } else {
        "false"@
    }) + sep + "record_path: "@ + c.record_path@ + "\r"@
}

impl Config {
    /// The configuration as `Display` writes it. See [`config_text`]; the secret key
    /// must have a character boundary after its first ten bytes.
    pub fn to_display_string(&self) -> (s: String)
        requires
            self.secret_key matches Some(k) ==> byte_boundary(k@, 10),
        ensures
            s@ == config_text(*self),
    {
        let sep = "\r\n            ";
        let mut v = str_chars("listen: ");
        push_all(&mut v, &str_chars(self.listen.to_display_string().as_str()));
        push_all(&mut v, &str_chars(sep));
        push_all(&mut v, &str_chars("server_key: "));
        push_all(&mut v, &str_chars(self.server_key.as_str()));
        push_all(&mut v, &str_chars(sep));
        push_all(&mut v, &str_chars("secret_key: "));
        let key = match &self.secret_key {
            Some(k) => split_at_bytes(k.as_str(), 10),
            None => "None".to_string(),
        };
        push_all(&mut v, &str_chars(key.as_str()));
        push_all(&mut v, &str_chars("..."));
        push_all(&mut v, &str_chars(sep));
        push_all(&mut v, &str_chars("max_auth_attempts_per_conn: "));
        push_all(&mut v, &decimal_of(self.max_auth_attempts_per_conn as u64));
        push_all(&mut v, &str_chars(sep));
        push_all(&mut v, &str_chars("max_ip_attempts: "));
        push_all(&mut v, &decimal_of(self.max_ip_attempts as u64));
        push_all(&mut v, &str_chars(sep));
        push_all(&mut v, &str_chars("max_user_attempts: "));
        push_all(&mut v, &decimal_of(self.max_user_attempts as u64));
        push_all(&mut v, &str_chars(sep));
        push_all(&mut v, &str_chars("unban_duration: "));
        push_all(&mut v, &str_chars(format_duration(&self.unban_duration).as_str()));
        push_all(&mut v, &str_chars(sep));
        push_all(&mut v, &str_chars("reuse_target_connection: "));
        push_all(&mut v, &str_chars(bool_string(self.reuse_target_connection).as_str()));
        push_all(&mut v, &str_chars(sep));
        push_all(&mut v, &str_chars("target_cache_duration: "));
        push_all(&mut v, &str_chars(format_duration(&self.target_cache_duration).as_str()));
        push_all(&mut v, &str_chars(sep));
        push_all(&mut v, &str_chars("inactivity_timeout: "));
        let idle = match &self.inactivity_timeout {
            Some(d) => format_duration(d),
            None => "None".to_string(),
        };
        push_all(&mut v, &str_chars(idle.as_str()));
        push_all(&mut v, &str_chars(sep));
        push_all(&mut v, &str_chars("log_level: "));
        push_all(&mut v, &str_chars(self.log_level.as_str()));
        push_all(&mut v, &str_chars(sep));
        push_all(&mut v, &str_chars("database: "));
        push_all(&mut v, &str_chars(self.database.to_display_string().as_str()));
        push_all(&mut v, &str_chars(sep));
        push_all(&mut v, &str_chars("enable_record: "));
        push_all(&mut v, &str_chars(bool_string(self.enable_record).as_str()));
        push_all(&mut v, &str_chars(sep));
        push_all(&mut v, &str_chars("record_input: "));
        push_all(&mut v, &str_chars(bool_string(self.record_input).as_str()));
        push_all(&mut v, &str_chars(sep));
        push_all(&mut v, &str_chars("record_path: "));
        push_all(&mut v, &str_chars(self.record_path.as_str()));
        push_all(&mut v, &str_chars("\r"));
        let r = chars_to_string(&v);
        assert(r@ =~= config_text(*self));
        r
    }
}

} // verus!
