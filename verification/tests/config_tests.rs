use rustion::config::{
    default_cache_idle_time, default_max_auth_attempts_per_conn, default_max_ip_attempts,
    default_max_user_attempts, default_record_path, default_unban_duration, Config, ConfigError,
    DatabaseConfig, ListenAddr, ListenConfig, LogLevel, Resolution, SocketAddress,
};
use rustion::policy::IpAddress;
use std::time::Duration;

fn config_with_listen(listen: &str) -> Config {
    Config {
        listen: ListenConfig::String(listen.to_string()),
        server_key: "test.pem".to_string(),
        secret_key: None,
        max_auth_attempts_per_conn: 3,
        max_ip_attempts: 100,
        max_user_attempts: 100,
        unban_duration: Duration::from_secs(600),
        reuse_target_connection: false,
        target_cache_duration: Duration::from_secs(600),
        inactivity_timeout: None,
        log_level: LogLevel::Info,
        database: DatabaseConfig::default(),
        enable_record: false,
        record_input: false,
        record_path: default_record_path(),
    }
}

#[test]
fn test_log_level_parsing() {
    assert_eq!(LogLevel::from_str("error").unwrap(), LogLevel::Error);
    assert_eq!(LogLevel::from_str("warn").unwrap(), LogLevel::Warn);
    assert_eq!(LogLevel::from_str("info").unwrap(), LogLevel::Info);
    assert_eq!(LogLevel::from_str("debug").unwrap(), LogLevel::Debug);
    assert_eq!(LogLevel::from_str("trace").unwrap(), LogLevel::Trace);

    // Test case insensitive parsing
    assert_eq!(LogLevel::from_str("ERROR").unwrap(), LogLevel::Error);
    assert_eq!(LogLevel::from_str("Info").unwrap(), LogLevel::Info);

    // Test invalid log level
    assert!(LogLevel::from_str("invalid").is_err());
}

#[test]
fn test_parse_listen_addr() {
    // A host name is handed to name resolution as it is.
    let config = config_with_listen("localhost:2222");
    match config.parse_listen_addr() {
        ListenAddr::Resolve(t) => assert_eq!(t, "localhost:2222"),
        ListenAddr::Ready(_) => panic!("a host name needs resolution"),
    }

    let config = config_with_listen("*:2222");
    match config.parse_listen_addr() {
        ListenAddr::Ready(a) => assert_eq!(a.port, 2222),
        ListenAddr::Resolve(_) => panic!("*:2222 is a socket address"),
    }

    let config = config_with_listen("2222");
    match config.parse_listen_addr() {
        ListenAddr::Ready(a) => assert_eq!(a.port, 2222),
        ListenAddr::Resolve(_) => panic!("2222 is a port"),
    }
}

#[test]
fn test_config_validation() {
    let config = Config::default().gen_secret_token();
    assert!(config.validate(Resolution::Empty).is_ok());

    // "invalid" becomes "0.0.0.0:invalid", which no resolution turns into an address.
    let invalid_config = config_with_listen("invalid");
    assert!(invalid_config.validate(Resolution::Empty).is_err());
}

#[test]
fn listen_text_forms() {
    match config_with_listen("invalid").parse_listen_addr() {
        ListenAddr::Resolve(t) => assert_eq!(t, "0.0.0.0:invalid"),
        ListenAddr::Ready(_) => panic!("not an address"),
    }
    match config_with_listen("192.168.1.1:2222").parse_listen_addr() {
        ListenAddr::Ready(a) => {
            assert_eq!(a.port, 2222);
            assert_eq!(a.ip, rustion::policy::IpAddress::V4(0xc0a8_0101));
        }
        ListenAddr::Resolve(_) => panic!("an address"),
    }
}

#[test]
fn log_level_names_round_trip() {
    for l in [LogLevel::Error, LogLevel::Warn, LogLevel::Info, LogLevel::Debug, LogLevel::Trace] {
        assert_eq!(LogLevel::from_str(l.as_str()).unwrap(), l);
    }
    assert_eq!(LogLevel::Warn.as_str(), "warn");
    match LogLevel::from_str("Loud") {
        Err(ConfigError::InvalidLogLevel { level }) => assert_eq!(level, "Loud"),
        _ => panic!("not a level"),
    }
}

#[test]
fn config_defaults() {
    let c = Config::default();
    assert_eq!(c.max_auth_attempts_per_conn, 5);
    assert_eq!(default_max_auth_attempts_per_conn(), 5);
    assert_eq!(default_max_ip_attempts(), 100);
    assert_eq!(default_max_user_attempts(), 100);
    assert_eq!(default_unban_duration(), Duration::from_secs(900));
    assert_eq!(default_cache_idle_time(), Duration::from_secs(1800));
    assert_eq!(default_record_path(), "./record");
    assert_eq!(c.server_key, "server_key.pem");
    assert_eq!(c.log_level, LogLevel::Info);
    assert!(c.secret_key.is_none());
    match c.database {
        DatabaseConfig::Sqlite { ref path } => assert_eq!(path, "rustion.db"),
    }
}

#[test]
fn config_setting_errors() {
    let mut c = Config::default();
    assert_eq!(c.validate(Resolution::Empty), Err(ConfigError::MissingSecretToken));
    c = c.with_secret_token(Some(String::new()));
    assert_eq!(c.validate(Resolution::Empty), Err(ConfigError::EmptySecretToken));
    c = c.with_secret_token(Some("not base64!".to_string()));
    assert!(matches!(c.validate(Resolution::Empty), Err(ConfigError::SecretTokenDecode { .. })));
    // 16 bytes of key: base64 of a key that is too short for AES-256.
    c = c.with_secret_token(Some("AAAAAAAAAAAAAAAAAAAAAA==".to_string()));
    assert_eq!(c.validate(Resolution::Empty), Err(ConfigError::SecretTokenKeyError));
    let mut c = Config::default().gen_secret_token();
    c.max_auth_attempts_per_conn = 0;
    assert_eq!(c.validate(Resolution::Empty), Err(ConfigError::MaxAuthAttemptsZero));
    let t = c.take_secret_token();
    assert!(t.is_some());
    assert!(c.secret_key.is_none());
}

#[test]
fn config_overrides() {
    let mut c = Config::default();
    assert!(c
        .apply_overrides(Some("*:22".to_string()), Some("k.pem".to_string()), Some("DEBUG".to_string()))
        .is_ok());
    assert_eq!(c.server_key, "k.pem");
    assert_eq!(c.log_level, LogLevel::Debug);
    match c.listen {
        ListenConfig::String(ref s) => assert_eq!(s, "*:22"),
        _ => panic!("listen text expected"),
    }
    let r = c.apply_overrides(None, None, Some("chatty".to_string()));
    assert!(matches!(r, Err(ConfigError::InvalidLogLevel { .. })));
    assert_eq!(c.log_level, LogLevel::Debug);
}

#[test]
fn generated_token_is_accepted() {
    let c = Config::default().gen_secret_token();
    let t = c.secret_key.clone().unwrap();
    assert_eq!(t.len(), 44);
    assert!(c.check_settings().is_ok());
}

#[test]
fn database_display() {
    assert_eq!(DatabaseConfig::default().to_display_string(), "sqlite(rustion.db)");
}

#[test]
fn config_display() {
    let mut c = Config::default();
    let sep = "\r\n            ";
    let expected = [
        "listen: 0.0.0.0:2222",
        "server_key: server_key.pem",
        "secret_key: None...",
        "max_auth_attempts_per_conn: 5",
        "max_ip_attempts: 100",
        "max_user_attempts: 100",
        "unban_duration: 15m",
        "reuse_target_connection: false",
        "target_cache_duration: 30m",
        "inactivity_timeout: None",
        "log_level: info",
        "database: sqlite(rustion.db)",
        "enable_record: false",
        "record_input: false",
        "record_path: ./record",
    ]
    .join(sep)
        + "\r";
    assert_eq!(c.to_display_string(), expected);
    c.secret_key = Some("0123456789abcdef".to_string());
    c.inactivity_timeout = Some(Duration::from_secs(3725));
    c.listen = ListenConfig::SocketAddr(SocketAddress { ip: IpAddress::V4(0x7f000001), port: 22, flowinfo: 0, scope_id: 0 });
    let text = c.to_display_string();
    assert!(text.starts_with("listen: 127.0.0.1:22\r\n"));
    assert!(text.contains("secret_key: 0123456789...\r\n"));
    assert!(text.contains("inactivity_timeout: 1h 2m 5s\r\n"));
}

#[test]
fn level_names_read_back_in_any_case() {
    for l in [LogLevel::Error, LogLevel::Warn, LogLevel::Info, LogLevel::Debug, LogLevel::Trace] {
        assert_eq!(LogLevel::from_str(l.as_str()).unwrap(), l);
        assert_eq!(LogLevel::from_str(&l.as_str().to_uppercase()).unwrap(), l);
    }
    assert!(LogLevel::from_str("verbose").is_err());
}

#[test]
fn unresolved_listen_address_gives_the_reason() {
    let c = config_with_listen("invalid").gen_secret_token();
    let e = c.validate(Resolution::Failed("lookup failed".to_string())).unwrap_err();
    assert_eq!(
        e.message(),
        "Invalid listen address 'invalid': Failed to resolve address '0.0.0.0:invalid': lookup failed"
    );
    let e = c.validate(Resolution::Empty).unwrap_err();
    assert_eq!(e.message(), "Invalid listen address 'invalid': No address resolved for '0.0.0.0:invalid'");
    let a = SocketAddress { ip: IpAddress::V4(0), port: 22, flowinfo: 0, scope_id: 0 };
    assert!(c.validate(Resolution::Resolved(a)).is_ok());
}

#[test]
fn ipv6_listen_address_keeps_scope() {
    let a = SocketAddress { ip: IpAddress::V6((0xfe80u128 << 112) | 1), port: 22, flowinfo: 7, scope_id: 3 };
    assert_eq!(ListenConfig::SocketAddr(a).to_display_string(), "[fe80::1%3]:22");
}
