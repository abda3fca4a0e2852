use chrono::{FixedOffset, NaiveDate, NaiveTime, TimeZone, Utc};
use rustion::policy::{
    is_in_period, is_ip_in_cidr, parse_network, verify_extend_policy_at, ExtendPolicy,
    ExtendPolicyReq, FixedDateTime, IpAddress, IpPolicy, PolicyParseError, Timestamp,
};

fn fixed(dt: chrono::DateTime<FixedOffset>) -> FixedDateTime {
    FixedDateTime {
        secs: dt.timestamp(),
        nanos: dt.timestamp_subsec_nanos(),
        offset: dt.offset().local_minus_utc(),
    }
}

fn stamp(dt: chrono::DateTime<Utc>) -> Timestamp {
    Timestamp { secs: dt.timestamp(), nanos: dt.timestamp_subsec_nanos() }
}

fn today_at(offset: FixedOffset, h: u32, m: u32) -> FixedDateTime {
    fixed(
        Utc::now()
            .with_timezone(&offset)
            .with_time(NaiveTime::from_hms_opt(h, m, 0).unwrap())
            .unwrap(),
    )
}

fn on_date(offset: FixedOffset, y: i32, mo: u32, d: u32, h: u32, mi: u32, s: u32) -> FixedDateTime {
    fixed(
        offset
            .from_local_datetime(
                &NaiveDate::from_ymd_opt(y, mo, d).unwrap().and_hms_opt(h, mi, s).unwrap(),
            )
            .unwrap(),
    )
}

fn net(s: &str) -> rustion::policy::IpNet {
    parse_network(s).unwrap()
}

fn ip(s: &str) -> IpAddress {
    match s.parse::<core::net::IpAddr>().unwrap() {
        core::net::IpAddr::V4(a) => IpAddress::V4(u32::from(a)),
        core::net::IpAddr::V6(a) => IpAddress::V6(u128::from(a)),
    }
}

#[test]
fn test_parse_extend_policy() {
    let input = "!192.168.0.0/16,11:30 +0800,17:30 +0800,2025-09-10 16:30:00 +0800";
    let policy = ExtendPolicy::from_str(input).unwrap();

    let offset = FixedOffset::east_opt(8 * 3600).unwrap();
    assert!(matches!(policy.ip_policy, Some(IpPolicy::Deny(ref n)) if *n == net("192.168.0.0/16")));
    assert_eq!(policy.start_time, Some(today_at(offset, 11, 30)));
    assert_eq!(policy.end_time, Some(today_at(offset, 17, 30)));
    assert_eq!(policy.expire_date, Some(on_date(offset, 2025, 9, 10, 16, 30, 0)));

    assert_eq!(policy.to_policy_string(), input);

    let input = "10.0.0.0/8,08:00 -0330,20:00 -0330,2030-01-01 00:00:00 -0330";
    let policy = ExtendPolicy::from_str(input).unwrap();

    let offset = FixedOffset::west_opt(3 * 3600 + 1800).unwrap();
    assert!(matches!(policy.ip_policy, Some(IpPolicy::Allow(ref n)) if *n == net("10.0.0.0/8")));
    assert_eq!(policy.start_time, Some(today_at(offset, 8, 0)));
    assert_eq!(policy.end_time, Some(today_at(offset, 20, 0)));
    assert_eq!(policy.expire_date, Some(on_date(offset, 2030, 1, 1, 0, 0, 0)));

    assert_eq!(policy.to_policy_string(), input);

    let input = "10.0.0.0/8,,20:00 +0000,2030-01-01 00:00:00 +0000";
    assert!(ExtendPolicy::from_str(input).is_err());
    let input = "10.0.0.0/8,20:00 +0000,,2030-01-01 00:00:00 +0000";
    assert!(ExtendPolicy::from_str(input).is_err());
    let input = "10.0.0.0/8,,";
    assert!(ExtendPolicy::from_str(input).is_ok());
    let input = "";
    assert!(ExtendPolicy::from_str(input).is_ok());
    let input = ",,";
    assert!(ExtendPolicy::from_str(input).is_ok());
    let input = "1000.0.0.0/8,,";
    assert!(ExtendPolicy::from_str(input).is_err());
    let input = "10.0.0.0/80,,";
    assert!(ExtendPolicy::from_str(input).is_err());

    let input = "10.0.0.0/8,,,2030-01-01 00:00:00 +0000";
    let policy = ExtendPolicy::from_str(input).unwrap();
    let offset = FixedOffset::east_opt(0).unwrap();
    assert!(matches!(policy.ip_policy, Some(IpPolicy::Allow(ref n)) if *n == net("10.0.0.0/8")));
    assert_eq!(policy.start_time, None);
    assert_eq!(policy.end_time, None);
    assert_eq!(policy.expire_date, Some(on_date(offset, 2030, 1, 1, 0, 0, 0)));

    let input = "10.0.0.0/8,,,";
    let policy = ExtendPolicy::from_str(input).unwrap();
    assert!(matches!(policy.ip_policy, Some(IpPolicy::Allow(ref n)) if *n == net("10.0.0.0/8")));
    assert_eq!(policy.start_time, None);
    assert_eq!(policy.end_time, None);
    assert_eq!(policy.expire_date, None);
}

#[test]
fn test_serde_extend_policy() {
    let offset = FixedOffset::east_opt(3 * 3600).unwrap();
    let ext = ExtendPolicy {
        ip_policy: Some(IpPolicy::Allow(net("10.0.0.0/8"))),
        start_time: Some(today_at(offset, 8, 0)),
        end_time: Some(today_at(offset, 20, 0)),
        expire_date: Some(on_date(offset, 2030, 1, 1, 0, 0, 0)),
    };
    let serialized = serde_json::to_string(&ext.to_stored_string().unwrap()).unwrap();
    assert_eq!(
        serialized,
        "\"10.0.0.0/8,08:00 +0300,20:00 +0300,2030-01-01 00:00:00 +0300\""
    );

    let ext = ExtendPolicy {
        ip_policy: Some(IpPolicy::Deny(net("10.0.0.0/8"))),
        start_time: None,
        end_time: None,
        expire_date: Some(on_date(offset, 2030, 1, 1, 0, 0, 0)),
    };
    let serialized = ext.to_policy_string();
    assert_eq!(serialized, "!10.0.0.0/8,,,2030-01-01 00:00:00 +0300");

    let ext = ExtendPolicy {
        ip_policy: None,
        start_time: None,
        end_time: None,
        expire_date: Some(on_date(offset, 2030, 1, 1, 0, 0, 0)),
    };
    let serialized = ext.to_policy_string();
    assert_eq!(serialized, ",,,2030-01-01 00:00:00 +0300");

    let ext = ExtendPolicy {
        ip_policy: None,
        start_time: Some(today_at(offset, 8, 0)),
        end_time: Some(today_at(offset, 8, 35)),
        expire_date: None,
    };
    let serialized = ext.to_policy_string();
    assert_eq!(serialized, ",08:00 +0300,08:35 +0300,");

    let ext = ExtendPolicy {
        ip_policy: None,
        start_time: None,
        end_time: Some(today_at(offset, 8, 35)),
        expire_date: None,
    };
    let ext_string = ext.to_policy_string();
    assert_eq!(ext_string, ",,08:35 +0300,");
    assert!(ext.to_stored_string().is_err());
}

/// A UTC instant on 2000-01-01 and a window whose bounds are clock times at `+0300`
/// placed on that instant's local date.
fn period_case(
    at: (u32, u32, u32),
    from: Option<(u32, u32)>,
    to: Option<(u32, u32)>,
) -> (Timestamp, Option<FixedDateTime>, Option<FixedDateTime>) {
    let offset = FixedOffset::east_opt(3 * 3600).unwrap();
    let t = NaiveDate::from_ymd_opt(2000, 1, 1).unwrap().and_hms_opt(at.0, at.1, at.2).unwrap().and_utc();
    let place = |hm: (u32, u32)| {
        fixed(t.with_timezone(&offset).with_time(NaiveTime::from_hms_opt(hm.0, hm.1, 0).unwrap()).unwrap())
    };
    (stamp(t), from.map(place), to.map(place))
}

#[test]
fn test_is_in_period() {
    let (t, start, end) = period_case((11, 30, 0), Some((10, 30)), Some((17, 30)));
    assert!(is_in_period(t, start, end));

    let (t, start, end) = period_case((17, 30, 0), Some((10, 30)), Some((17, 30)));
    assert!(!is_in_period(t, start, end));

    let (t, start, end) = period_case((10, 30, 0), Some((10, 30)), Some((17, 30)));
    assert!(is_in_period(t, start, end));

    let (t, start, end) = period_case((18, 30, 0), Some((10, 30)), Some((17, 30)));
    assert!(!is_in_period(t, start, end));

    let (t, start, end) = period_case((11, 30, 0), Some((10, 30)), Some((17, 30)));
    assert!(is_in_period(t, start, end));

    let (t, start, end) = period_case((21, 30, 0), Some((20, 30)), Some((6, 30)));
    assert!(is_in_period(t, start, end));

    let (t, start, end) = period_case((6, 30, 0), Some((20, 30)), Some((6, 30)));
    assert!(!is_in_period(t, start, end));

    let (t, start, end) = period_case((20, 30, 0), Some((20, 30)), Some((6, 30)));
    assert!(is_in_period(t, start, end));

    let (t, start, end) = period_case((1, 30, 0), Some((20, 30)), Some((6, 30)));
    assert!(is_in_period(t, start, end));

    let (t, start, end) = period_case((19, 30, 0), Some((23, 30)), Some((9, 30)));
    assert!(!is_in_period(t, start, end));

    let (t, start, end) = period_case((8, 30, 0), Some((23, 30)), Some((9, 30)));
    assert!(!is_in_period(t, start, end));

    let (t, start, end) = period_case((19, 59, 1), Some((23, 30)), Some((23, 30)));
    assert!(!is_in_period(t, start, end));

    let (t, start, end) = period_case((20, 30, 1), Some((23, 30)), Some((23, 30)));
    assert!(!is_in_period(t, start, end));

    let (t, start, end) = period_case((20, 30, 0), Some((23, 30)), Some((23, 30)));
    assert!(!is_in_period(t, start, end));

    let (t, start, end) = period_case((20, 30, 0), None, None);
    assert!(is_in_period(t, start, end));

    let (t, start, end) = period_case((20, 30, 0), None, Some((23, 30)));
    assert!(!is_in_period(t, start, end));
}

#[test]
fn test_is_ip_in_cidr() {
    assert!(is_ip_in_cidr(None, None));

    let cidr = IpPolicy::Allow(net("192.168.1.0/24"));
    assert!(is_ip_in_cidr(Some(ip("192.168.1.1")), Some(cidr)));

    assert!(!is_ip_in_cidr(None, Some(cidr)));

    assert!(is_ip_in_cidr(Some(ip("192.168.1.0")), Some(cidr)));
    assert!(is_ip_in_cidr(Some(ip("192.168.1.255")), Some(cidr)));
    assert!(!is_ip_in_cidr(Some(ip("192.168.2.1")), Some(cidr)));

    let cidr = IpPolicy::Allow(net("192.168.1.100/32"));
    assert!(is_ip_in_cidr(Some(ip("192.168.1.100")), Some(cidr)));
    assert!(!is_ip_in_cidr(Some(ip("192.168.1.101")), Some(cidr)));

    let cidr = IpPolicy::Allow(net("192.168.1.128/25"));
    assert!(is_ip_in_cidr(Some(ip("192.168.1.128")), Some(cidr)));
    assert!(is_ip_in_cidr(Some(ip("192.168.1.129")), Some(cidr)));
    assert!(!is_ip_in_cidr(Some(ip("192.168.1.127")), Some(cidr)));

    let cidr = IpPolicy::Allow(net("2001:db8::/64"));
    assert!(is_ip_in_cidr(Some(ip("2001:0db8::1")), Some(cidr)));
    assert!(is_ip_in_cidr(Some(ip("2001:db8::ffff:ffff:ffff:ffff")), Some(cidr)));
    assert!(!is_ip_in_cidr(Some(ip("2001:db9::1")), Some(cidr)));

    let cidr = IpPolicy::Deny(net("192.168.1.0/24"));
    assert!(!is_ip_in_cidr(Some(ip("192.168.1.0")), Some(cidr)));
    assert!(!is_ip_in_cidr(Some(ip("192.168.1.255")), Some(cidr)));
    assert!(is_ip_in_cidr(Some(ip("192.168.2.1")), Some(cidr)));
    assert!(is_ip_in_cidr(Some(ip("1.1.2.1")), Some(cidr)));
}

#[test]
fn wrapped_period_spans_midnight() {
    // 22:00 to 06:00 UTC: 23:00 and 05:00 are inside, 12:00 is not.
    let offset = FixedOffset::east_opt(0).unwrap();
    let day = NaiveDate::from_ymd_opt(2000, 1, 1).unwrap();
    let start = Some(fixed(offset.from_local_datetime(&day.and_hms_opt(22, 0, 0).unwrap()).unwrap()));
    let end = Some(fixed(offset.from_local_datetime(&day.and_hms_opt(6, 0, 0).unwrap()).unwrap()));
    let at = |h: u32| stamp(day.and_hms_opt(h, 0, 0).unwrap().and_utc());
    assert!(is_in_period(at(23), start, end));
    assert!(is_in_period(at(5), start, end));
    assert!(!is_in_period(at(12), start, end));
    // Only one bound: never; no bounds: always.
    assert!(!is_in_period(at(12), start, None));
    assert!(is_in_period(at(12), None, None));
}

#[test]
fn policy_errors_by_kind() {
    assert!(matches!(ExtendPolicy::from_str("nonsense,,"), Err(PolicyParseError::InvalidNetwork(_))));
    assert!(matches!(
        ExtendPolicy::from_str(",25:00 +0000,10:00 +0000,"),
        Err(PolicyParseError::InvalidStartTime(_))
    ));
    assert!(matches!(
        ExtendPolicy::from_str(",10:00 +0000,xx,"),
        Err(PolicyParseError::InvalidEndTime(_))
    ));
    assert_eq!(
        ExtendPolicy::from_str(",10:00 +0000,,").unwrap_err(),
        PolicyParseError::UnpairedTimes
    );
    assert_eq!(
        ExtendPolicy::from_str(",10:00 +0000,11:00 +0100,").unwrap_err(),
        PolicyParseError::TimezoneMismatch
    );
    assert!(matches!(
        ExtendPolicy::from_str(",,,2030-13-01 00:00:00 +0000"),
        Err(PolicyParseError::InvalidExpireDate(_))
    ));
}

#[test]
fn verify_policy_at_fixed_time() {
    let now = stamp(NaiveDate::from_ymd_opt(2025, 1, 1).unwrap().and_hms_opt(12, 0, 0).unwrap().and_utc());
    let inside = ExtendPolicyReq { ip: Some(ip("10.1.2.3")), now };
    let outside = ExtendPolicyReq { ip: Some(ip("192.168.0.1")), now };
    let unknown = ExtendPolicyReq { ip: None, now };
    // An empty policy admits everyone.
    assert_eq!(verify_extend_policy_at(&unknown, "", now), Ok(true));
    assert_eq!(verify_extend_policy_at(&inside, "10.0.0.0/8,,,", now), Ok(true));
    assert_eq!(verify_extend_policy_at(&outside, "10.0.0.0/8,,,", now), Ok(false));
    assert_eq!(verify_extend_policy_at(&outside, "!10.0.0.0/8,,,", now), Ok(true));
    assert_eq!(verify_extend_policy_at(&unknown, "10.0.0.0/8,,,", now), Ok(false));
    // Working hours around noon UTC, and an expiry.
    assert_eq!(verify_extend_policy_at(&inside, ",09:00 +0000,17:00 +0000,", now), Ok(true));
    assert_eq!(verify_extend_policy_at(&inside, ",13:00 +0000,17:00 +0000,", now), Ok(false));
    assert_eq!(verify_extend_policy_at(&inside, ",,,2024-12-31 00:00:00 +0000", now), Ok(false));
    assert_eq!(verify_extend_policy_at(&inside, ",,,2025-01-02 00:00:00 +0000", now), Ok(true));
    assert!(verify_extend_policy_at(&inside, "10.0.0.0/99,,,", now).is_err());
}

#[test]
fn policy_text_round_trip() {
    let input = "!10.0.0.0/8,,,2030-01-01 00:00:00 +0300";
    let p = ExtendPolicy::from_str(input).unwrap();
    assert_eq!(p.to_policy_string(), input);
    let again = ExtendPolicy::from_str(&p.to_policy_string()).unwrap();
    assert_eq!(again.expire_date, p.expire_date);
    assert_eq!(again.ip_policy, p.ip_policy);
}

#[test]
fn clock_times_need_a_day_that_can_be_placed() {
    let late = Timestamp { secs: 8210266876799 - 86400, nanos: 0 };
    assert!(matches!(
        ExtendPolicy::parse_at(",09:00 +0000,17:00 +0000,", late),
        Err(PolicyParseError::ClockOutOfRange)
    ));
    assert!(matches!(
        ExtendPolicy::parse_at(",9 o'clock,17:00 +0000,", late),
        Err(PolicyParseError::InvalidStartTime(_))
    ));
    assert!(ExtendPolicy::parse_at("10.0.0.0/8,,,", late).is_ok());
    let req = ExtendPolicyReq { ip: None, now: late };
    assert_eq!(verify_extend_policy_at(&req, "", late), Ok(true));
    let early = Timestamp { secs: -8334601315200 + 86400, nanos: 0 };
    assert!(matches!(
        ExtendPolicy::parse_at(",,17:00 +0000,", early),
        Err(PolicyParseError::ClockOutOfRange)
    ));
}
