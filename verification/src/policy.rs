//! Extended policy conditions of a permission rule: an IP allow/deny network,
//! a daily time window and an expiry date, written as
//! `ip,start,end,expire` (for example `!192.168.0.0/16,11:30 +0800,17:30 +0800,2025-09-10 16:30:00 +0800`).
use vstd::prelude::*;
use crate::text::{
    chars_to_string, split_chars, split_spec, split_whitespace_chars, str_chars, views, ws_tokens,
};
use chrono::Timelike;

verus! {

broadcast use vstd::string::group_string_axioms;

// ---------------------------------------------------------------------------
// IP addresses and networks
// ---------------------------------------------------------------------------

/// An IP address, as its numeric value.
#[derive(Clone, Copy, Debug, PartialEq, Eq, Structural)]
pub enum IpAddress {
    V4(u32),
    V6(u128),
}

/// A network in CIDR notation: an address (kept as written) and a prefix length.
#[derive(Clone, Copy, Debug, PartialEq, Eq, Structural)]
pub struct IpNet {
    pub addr: IpAddress,
    pub prefix: u8,
}

impl IpNet {
    /// The prefix fits the address family.
    pub open spec fn wf(self) -> bool {
        match self.addr {
            IpAddress::V4(_) => self.prefix <= 32,
            IpAddress::V6(_) => self.prefix <= 128,
        }
    }
}

/// Whether `ip` lies in `net`: same family, and the first `prefix` bits agree.
pub open spec fn net_contains(net: IpNet, ip: IpAddress) -> bool {
    match (net.addr, ip) {
        (IpAddress::V4(a), IpAddress::V4(b)) => net.prefix == 0 || (a >> ((32 - net.prefix) as u32))
            == (b >> ((32 - net.prefix) as u32)),
        (IpAddress::V6(a), IpAddress::V6(b)) => net.prefix == 0 || (a >> ((128
            - net.prefix) as u32)) == (b >> ((128 - net.prefix) as u32)),
        _ => false,
    }
}

/// An IP condition of a policy: only addresses inside (`Allow`) or outside (`Deny`) a network.
#[derive(Clone, Copy, Debug, PartialEq, Eq, Structural)]
pub enum IpPolicy {
    Allow(IpNet),
    Deny(IpNet),
}

impl IpPolicy {
    pub open spec fn net(self) -> IpNet {
        match self {
            IpPolicy::Allow(n) => n,
            IpPolicy::Deny(n) => n,
        }
    }
}

/// What `ipnetwork::IpNetwork::from_str` gives for a string.
pub uninterp spec fn spec_parse_ip_network(s: Seq<char>) -> Option<IpNet>;

/// What `IpNetwork`'s `Display` writes for a network.
pub uninterp spec fn spec_ip_network_string(net: IpNet) -> Seq<char>;

/// The written network is a non-empty text without `,` or `!` that reads back as the
/// same network.
pub open spec fn network_text_reads_back(net: IpNet) -> bool {
    let t = spec_ip_network_string(net);
    &&& t.len() > 0
    &&& forall|i: int| 0 <= i < t.len() ==> t[i] != ',' && t[i] != '!'
    &&& spec_parse_ip_network(t) == Some(net)
}

/// Parses a network in CIDR notation with `ipnetwork::IpNetwork::from_str`
/// (IPv4 tried first, then IPv6). Claimed: success exactly when the named parse
/// succeeds, with that network, whose prefix fits its family (the crate's
/// constructors refuse other prefixes). The error text is the crate's and is not stated.
#[verifier::external_body]
fn parse_ip_network(s: &str) -> (r: Result<IpNet, String>)
    ensures
        match r {
            Ok(n) => spec_parse_ip_network(s@) == Some(n) && n.wf(),
            Err(_) => spec_parse_ip_network(s@) is None,
        },
{
    match s.parse::<ipnetwork::IpNetwork>() {
        Ok(ipnetwork::IpNetwork::V4(n)) => Ok(IpNet { addr: IpAddress::V4(u32::from(n.ip())), prefix: n.prefix() }),
        Ok(ipnetwork::IpNetwork::V6(n)) => Ok(IpNet { addr: IpAddress::V6(u128::from(n.ip())), prefix: n.prefix() }),
        Err(e) => Err(e.to_string()),
    }
}

/// Writes a network with `IpNetwork`'s `Display` (`address/prefix`). Claimed: the
/// text is the named one for that network; it is not empty, holds neither `,` nor
/// `!` (an address, `/` and the prefix digits), and `FromStr` reads it back as the
/// same network (the address and the prefix are parsed back as they were written).
#[verifier::external_body]
fn ip_network_string(net: IpNet) -> (s: String)
    requires
        net.wf(),
    ensures
        s@ == spec_ip_network_string(net),
        s@.len() > 0,
        forall|i: int| 0 <= i < s@.len() ==> s@[i] != ',' && s@[i] != '!',
        spec_parse_ip_network(s@) == Some(net),
{
    let n = match net.addr {
        IpAddress::V4(a) => ipnetwork::IpNetwork::V4(ipnetwork::Ipv4Network::new(core::net::Ipv4Addr::from(a), net.prefix).unwrap()),
        IpAddress::V6(a) => ipnetwork::IpNetwork::V6(ipnetwork::Ipv6Network::new(core::net::Ipv6Addr::from(a), net.prefix).unwrap()),
    };
    n.to_string()
}

/// `IpNetwork::contains`: claimed to hold exactly when the address has the
/// network's family and agrees with the network address on the first `prefix` bits
/// (the crate masks both with the prefix mask and compares).
#[verifier::external_body]
fn ip_network_contains(net: IpNet, ip: IpAddress) -> (r: bool)
    requires
        net.wf(),
    ensures
        r == net_contains(net, ip),
{
    let n = match net.addr {
        IpAddress::V4(a) => ipnetwork::IpNetwork::V4(ipnetwork::Ipv4Network::new(core::net::Ipv4Addr::from(a), net.prefix).unwrap()),
        IpAddress::V6(a) => ipnetwork::IpNetwork::V6(ipnetwork::Ipv6Network::new(core::net::Ipv6Addr::from(a), net.prefix).unwrap()),
    };
    let addr = match ip {
        IpAddress::V4(b) => core::net::IpAddr::V4(core::net::Ipv4Addr::from(b)),
        IpAddress::V6(b) => core::net::IpAddr::V6(core::net::Ipv6Addr::from(b)),
    };
    n.contains(addr)
}

/// Parses a network in CIDR notation (`10.0.0.0/8`, `2001:db8::/64`).
pub fn parse_network(s: &str) -> (r: Option<IpNet>)
    ensures
        r == spec_parse_ip_network(s@),
        r matches Some(n) ==> n.wf(),
{
    match parse_ip_network(s) {
        Ok(n) => Some(n),
        Err(_) => None,
    }
}

pub open spec fn ip_in_cidr_spec(ip: Option<IpAddress>, policy: Option<IpPolicy>) -> bool {
    match (ip, policy) {
        (_, None) => true,
        (None, Some(_)) => false,
        (Some(ip), Some(IpPolicy::Allow(n))) => net_contains(n, ip),
        (Some(ip), Some(IpPolicy::Deny(n))) => !net_contains(n, ip),
    }
}

/// Whether a client address passes an IP condition: no condition admits everyone,
/// an unknown address is refused by any condition, `Allow` admits the addresses
/// inside the network and `Deny` those outside it.
pub fn is_ip_in_cidr(ip: Option<IpAddress>, ip_policy: Option<IpPolicy>) -> (r: bool)
    requires
        ip_policy matches Some(p) ==> p.net().wf(),
    ensures
        r == ip_in_cidr_spec(ip, ip_policy),
{
    match (ip, ip_policy) {
        (_, None) => true,
        (None, Some(_)) => false,
        (Some(ip), Some(policy)) => match policy {
            IpPolicy::Allow(cidr) => ip_network_contains(cidr, ip),
            IpPolicy::Deny(cidr) => !ip_network_contains(cidr, ip),
        },
    }
}

// ---------------------------------------------------------------------------
// Instants
// ---------------------------------------------------------------------------

/// A UTC instant: seconds since the Unix epoch and nanoseconds within the second.
#[derive(Clone, Copy, Debug, PartialEq, Eq, Structural)]
pub struct Timestamp {
    pub secs: i64,
    pub nanos: u32,
}

/// An instant with a fixed UTC offset: `secs`/`nanos` locate the instant (UTC),
/// `offset` is the local time minus UTC, in seconds.
#[derive(Clone, Copy, Debug, PartialEq, Eq, Structural)]
pub struct FixedDateTime {
    pub secs: i64,
    pub nanos: u32,
    pub offset: i32,
}

/// Seconds of the first and last representable instants of chrono's calendar.
pub open spec fn min_secs() -> int {
    -8334601315200
}

pub open spec fn max_secs() -> int {
    8210266876799
}

/// A value that chrono can hold: in the calendar's range, with a valid offset.
pub open spec fn dt_in_range(dt: FixedDateTime) -> bool {
    &&& min_secs() <= dt.secs <= max_secs()
    &&& -86400 < dt.offset < 86400
    &&& dt.nanos < 2_000_000_000
}

/// A value that chrono can hold and format: in range and not a leap second.
pub open spec fn dt_valid(dt: FixedDateTime) -> bool {
    &&& dt_in_range(dt)
    &&& dt.nanos < 1_000_000_000
}

/// `a` comes strictly before `b`.
pub open spec fn before(a_secs: i64, a_nanos: u32, b_secs: i64, b_nanos: u32) -> bool {
    a_secs < b_secs || (a_secs == b_secs && a_nanos < b_nanos)
}

fn instant_before(a_secs: i64, a_nanos: u32, b_secs: i64, b_nanos: u32) -> (r: bool)
    ensures
        r == before(a_secs, a_nanos, b_secs, b_nanos),
{
    a_secs < b_secs || (a_secs == b_secs && a_nanos < b_nanos)
}

pub open spec fn in_period_spec(
    t: Timestamp,
    start: Option<FixedDateTime>,
    end: Option<FixedDateTime>,
) -> bool {
    match (start, end) {
        (Some(s), Some(e)) => {
            if !before(e.secs, e.nanos, s.secs, s.nanos) {
                !before(t.secs, t.nanos, s.secs, s.nanos) && before(t.secs, t.nanos, e.secs, e.nanos)
            } else {
                !before(t.secs, t.nanos, s.secs, s.nanos) || before(t.secs, t.nanos, e.secs, e.nanos)
            }
        },
        (None, None) => true,
        _ => false,
    }
}

/// Whether `t` lies in the half-open period `[start, end)`; when `end` comes before
/// `start` the period wraps around midnight and `t` must be at or after `start` or
/// before `end`. Only one bound given: never; no bounds: always.
pub fn is_in_period(t: Timestamp, start: Option<FixedDateTime>, end: Option<FixedDateTime>) -> (r:
    bool)
    ensures
        r == in_period_spec(t, start, end),
{
    match (start, end) {
        (Some(_), None) | (None, Some(_)) => false,
        (Some(s), Some(e)) => {
            if !instant_before(e.secs, e.nanos, s.secs, s.nanos) {
                !instant_before(t.secs, t.nanos, s.secs, s.nanos) && instant_before(
                    t.secs,
                    t.nanos,
                    e.secs,
                    e.nanos,
                )
            } else {
                !instant_before(t.secs, t.nanos, s.secs, s.nanos) || instant_before(
                    t.secs,
                    t.nanos,
                    e.secs,
                    e.nanos,
                )
            }
        },
        (None, None) => true,
    }
}

// ---------------------------------------------------------------------------
// chrono calls
// ---------------------------------------------------------------------------

/// What `chrono::NaiveTime::parse_from_str(s, fmt)` gives: seconds since midnight
/// and nanoseconds.
pub uninterp spec fn spec_parse_naive_time(s: Seq<char>, fmt: Seq<char>) -> Option<(u32, u32)>;

/// What `chrono::FixedOffset::from_str(s)` gives: the offset in seconds east of UTC.
pub uninterp spec fn spec_parse_fixed_offset(s: Seq<char>) -> Option<i32>;

/// What `chrono::DateTime::<FixedOffset>::parse_from_str(s, fmt)` gives.
pub uninterp spec fn spec_parse_datetime(s: Seq<char>, fmt: Seq<char>) -> Option<FixedDateTime>;

/// What chrono's `DateTime::format(fmt)` writes for an instant with its offset.
pub uninterp spec fn spec_format_datetime(dt: FixedDateTime, fmt: Seq<char>) -> Seq<char>;

pub open spec fn clock_format() -> Seq<char> {
    "%H:%M %z"@
}

pub open spec fn date_format() -> Seq<char> {
    "%Y-%m-%d %H:%M:%S %z"@
}

/// `NaiveTime::parse_from_str` with the hour-minute-offset format. Claimed: success
/// exactly when the named parse succeeds; such a time has only hours and minutes,
/// so it is a whole minute of the day. The error text is chrono's and is not stated.
#[verifier::external_body]
fn parse_naive_time(s: &str, fmt: &str) -> (r: Result<(u32, u32), String>)
    requires
        fmt@ == clock_format(),
    ensures
        match r {
            Ok(t) => spec_parse_naive_time(s@, fmt@) == Some(t) && t.0 < 86400 && t.0 % 60 == 0
                && t.1 == 0,
            Err(_) => spec_parse_naive_time(s@, fmt@) is None,
        },
{
    match chrono::NaiveTime::parse_from_str(s, fmt) {
        Ok(t) => Ok((t.num_seconds_from_midnight(), t.nanosecond())),
        Err(e) => Err(e.to_string()),
    }
}

/// `FixedOffset::from_str`. Claimed: success exactly when the named parse succeeds,
/// with an offset that `FixedOffset::east_opt` accepts (strictly within a day).
#[verifier::external_body]
fn parse_fixed_offset(s: &str) -> (r: Result<i32, String>)
    ensures
        match r {
            Ok(o) => spec_parse_fixed_offset(s@) == Some(o) && -86400 < o < 86400,
            Err(_) => spec_parse_fixed_offset(s@) is None,
        },
{
    match s.parse::<chrono::FixedOffset>() {
        Ok(o) => Ok(o.local_minus_utc()),
        Err(e) => Err(e.to_string()),
    }
}

/// `DateTime::<FixedOffset>::parse_from_str`. Claimed: success exactly when the named
/// parse succeeds; the value lies in chrono's range with a valid offset.
#[verifier::external_body]
fn parse_datetime(s: &str, fmt: &str) -> (r: Result<FixedDateTime, String>)
    ensures
        match r {
            Ok(d) => spec_parse_datetime(s@, fmt@) == Some(d) && dt_in_range(d),
            Err(_) => spec_parse_datetime(s@, fmt@) is None,
        },
{
    match chrono::DateTime::parse_from_str(s, fmt) {
        Ok(d) => Ok(FixedDateTime {
            secs: d.timestamp(),
            nanos: d.timestamp_subsec_nanos(),
            offset: d.offset().local_minus_utc(),
        }),
        Err(e) => Err(e.to_string()),
    }
}

/// chrono's `format(fmt).to_string()` for one of the two formats of this module.
/// Claimed: the text is the named one.
#[verifier::external_body]
fn format_datetime(dt: FixedDateTime, fmt: &str) -> (s: String)
    requires
        dt_valid(dt),
        fmt@ == clock_format() || fmt@ == date_format(),
    ensures
        s@ == spec_format_datetime(dt, fmt@),
{
    let off = chrono::FixedOffset::east_opt(dt.offset).unwrap();
    chrono::DateTime::from_timestamp(dt.secs, dt.nanos).unwrap().with_timezone(&off).format(fmt).to_string()
}

/// A reading of the system clock that chrono can hold.
pub open spec fn clock_reading(t: Timestamp) -> bool {
    &&& min_secs() <= t.secs <= max_secs()
    &&& t.nanos < 2_000_000_000
}

/// The current time (`chrono::Utc::now()`). Claimed only that it is a valid chrono instant.
#[verifier::external_body]
pub(crate) fn utc_now() -> (t: Timestamp)
    ensures
        clock_reading(t),
{
    let n = chrono::Utc::now();
    Timestamp { secs: n.timestamp(), nanos: n.timestamp_subsec_nanos() }
}

// ---------------------------------------------------------------------------
// Clock times of today
// ---------------------------------------------------------------------------

/// Far enough from both ends of chrono's range that moving to a local day and back stays inside.
pub open spec fn clock_safe(now: Timestamp) -> bool {
    min_secs() + 3 * 86400 <= now.secs <= max_secs() - 3 * 86400
}

fn is_clock_safe(now: Timestamp) -> (b: bool)
    ensures
        b == clock_safe(now),
{
    now.secs >= -8334601315200 + 3 * 86400 && now.secs <= 8210266876799 - 3 * 86400
}

/// The instant of clock time `secs_of_day` (plus `nanos`) on the local date of `now` at
/// offset `offset`: what chrono's `now.with_timezone(offset).with_time(t)` denotes.
pub open spec fn with_time_spec(now: Timestamp, offset: i32, secs_of_day: u32, nanos: u32) -> FixedDateTime {
    let local = now.secs + offset;
    let day = local / 86400;
    FixedDateTime { secs: (day * 86400 + secs_of_day - offset) as i64, nanos, offset }
}

fn with_time(now: Timestamp, offset: i32, secs_of_day: u32, nanos: u32) -> (r: FixedDateTime)
    requires
        clock_safe(now),
        -86400 < offset < 86400,
        secs_of_day < 86400,
    ensures
        r == with_time_spec(now, offset, secs_of_day, nanos),
        now.secs - 2 * 86400 <= r.secs <= now.secs + 2 * 86400,
{
    let shift: i64 = 86400 * 200_000_000;
    let local: i64 = now.secs + offset as i64;
    let shifted: u64 = (local + shift) as u64;
    let day: i64 = (shifted / 86400) as i64 - 200_000_000;
    proof {
        let l = local as int;
        let d = (shifted as int) / 86400;
        assert(d * 86400 <= (shifted as int) < d * 86400 + 86400) by (nonlinear_arith)
            requires
                d == (shifted as int) / 86400,
                shifted >= 0,
        ;
        assert(l / 86400 == d - 200_000_000) by (nonlinear_arith)
            requires
                d * 86400 <= l + 86400 * 200_000_000 < d * 86400 + 86400,
        ;
    }
    let secs: i64 = day * 86400 + secs_of_day as i64 - offset as i64;
    FixedDateTime { secs, nanos, offset }
}

/// The second white-space separated token of `s`, if any.
fn second_token(s: &Vec<char>) -> (r: Option<Vec<char>>)
    ensures
        match r {
            Some(t) => ws_tokens(s@).len() > 1 && t@ == ws_tokens(s@)[1],
            None => ws_tokens(s@).len() <= 1,
        },
{
    let mut toks = split_whitespace_chars(s);
    if toks.len() > 1 {
        let t = toks.remove(1);
        Some(t)
    } else {
        None
    }
}

pub open spec fn default_offset_text() -> Seq<char> {
    seq!['+', '0', '0', '0', '0']
}

/// What parsing a clock time `HH:MM ±hhmm` gives on the day of `now`: the time is read with
/// chrono's `%H:%M %z` format, the offset from the second white-space separated token
/// (`+0000` when there is none), and the result is that clock time on the local date of `now`.
pub open spec fn parse_time_spec(t: Seq<char>, now: Timestamp) -> Option<FixedDateTime> {
    match spec_parse_naive_time(t, clock_format()) {
        None => None,
        Some(hm) => {
            let off_text = if ws_tokens(t).len() > 1 {
                ws_tokens(t)[1]
            } else {
                default_offset_text()
            };
            match spec_parse_fixed_offset(off_text) {
                None => None,
                Some(off) => Some(with_time_spec(now, off, hm.0, hm.1)),
            }
        },
    }
}

/// Reads a clock time on the day of `now`. `Err(Some(message))`: the text is not a
/// clock time; `Err(None)`: it is one, but `now` is too close to the end of chrono's
/// range for its day to be placed.
fn parse_time(t: &Vec<char>, now: Timestamp) -> (r: Result<FixedDateTime, Option<String>>)
    ensures
        match r {
            Ok(d) => parse_time_spec(t@, now) == Some(d) && clock_safe(now) && dt_valid(d),
            Err(Some(_)) => parse_time_spec(t@, now) is None,
            Err(None) => parse_time_spec(t@, now) is Some && !clock_safe(now),
        },
{
    let text = chars_to_string(t);
    let hm = match parse_naive_time(text.as_str(), "%H:%M %z") {
        Ok(v) => v,
        Err(e) => return Err(Some(e)),
    };
    let off_chars = match second_token(t) {
        Some(tok) => tok,
        None => vec!['+', '0', '0', '0', '0'],
    };
    let off_text = chars_to_string(&off_chars);
    let off = match parse_fixed_offset(off_text.as_str()) {
        Ok(o) => o,
        Err(e) => return Err(Some(e)),
    };
    if !is_clock_safe(now) {
        return Err(None);
    }
    let d = with_time(now, off, hm.0, hm.1);
    Ok(d)
}

// ---------------------------------------------------------------------------
// Extended policies
// ---------------------------------------------------------------------------

/// The extended conditions of a permission rule.
#[derive(Clone, Copy, Debug)]
pub struct ExtendPolicy {
    pub ip_policy: Option<IpPolicy>,
    pub start_time: Option<FixedDateTime>,
    pub end_time: Option<FixedDateTime>,
    pub expire_date: Option<FixedDateTime>,
}

impl ExtendPolicy {
    /// Every part is a value the underlying crates can hold.
    pub open spec fn wf(self) -> bool {
        &&& (self.ip_policy matches Some(p) ==> p.net().wf())
        &&& (self.start_time matches Some(d) ==> dt_in_range(d))
        &&& (self.end_time matches Some(d) ==> dt_in_range(d))
        &&& (self.expire_date matches Some(d) ==> dt_in_range(d))
    }

    /// Every part can be written back (in range, and no leap second).
    pub open spec fn printable(self) -> bool {
        &&& (self.ip_policy matches Some(p) ==> p.net().wf())
        &&& (self.start_time matches Some(d) ==> dt_valid(d))
        &&& (self.end_time matches Some(d) ==> dt_valid(d))
        &&& (self.expire_date matches Some(d) ==> dt_valid(d))
    }
}

/// The request side of a check: the client's address and the time of the request.
#[derive(Clone, Copy, Debug)]
pub struct ExtendPolicyReq {
    pub ip: Option<IpAddress>,
    pub now: Timestamp,
}

impl ExtendPolicyReq {
    /// A request from `ip` at the current time.
    pub fn new(ip: Option<IpAddress>) -> (r: Self)
        ensures
            r.ip == ip,
    {
        ExtendPolicyReq { ip, now: utc_now() }
    }
}

/// Why a policy text was refused.
#[derive(Debug, PartialEq, Eq)]
pub enum PolicyParseError {
    /// The network part is not a network; the parser's message.
    InvalidNetwork(String),
    /// The start time is not `HH:MM ±hhmm`; the parser's message.
    InvalidStartTime(String),
    /// The end time is not `HH:MM ±hhmm`; the parser's message.
    InvalidEndTime(String),
    /// Only one of start and end time is given.
    UnpairedTimes,
    /// Start and end time have different offsets.
    TimezoneMismatch,
    /// The expiry is not `YYYY-MM-DD HH:MM:SS ±hhmm`; the parser's message.
    InvalidExpireDate(String),
    /// The system clock is outside the range that clock times can be placed on.
    ClockOutOfRange,
}

/// The kinds of [`PolicyParseError`], without the parsers' messages.
#[derive(Clone, Copy, Debug, PartialEq, Eq, Structural)]
pub enum PolicyErrorKind {
    InvalidNetwork,
    InvalidStartTime,
    InvalidEndTime,
    UnpairedTimes,
    TimezoneMismatch,
    InvalidExpireDate,
    ClockOutOfRange,
}

impl PolicyParseError {
    pub open spec fn kind(self) -> PolicyErrorKind {
        match self {
            PolicyParseError::InvalidNetwork(_) => PolicyErrorKind::InvalidNetwork,
            PolicyParseError::InvalidStartTime(_) => PolicyErrorKind::InvalidStartTime,
            PolicyParseError::InvalidEndTime(_) => PolicyErrorKind::InvalidEndTime,
            PolicyParseError::UnpairedTimes => PolicyErrorKind::UnpairedTimes,
            PolicyParseError::TimezoneMismatch => PolicyErrorKind::TimezoneMismatch,
            PolicyParseError::InvalidExpireDate(_) => PolicyErrorKind::InvalidExpireDate,
            PolicyParseError::ClockOutOfRange => PolicyErrorKind::ClockOutOfRange,
        }
    }
}

/// The `i`-th comma-separated part, or the empty text when there are fewer parts.
pub open spec fn part(parts: Seq<Seq<char>>, i: int) -> Seq<char> {
    if i < parts.len() {
        parts[i]
    } else {
        Seq::empty()
    }
}

pub open spec fn parse_ip_part_spec(p: Seq<char>) -> Result<Option<IpPolicy>, PolicyErrorKind> {
    if p.len() == 0 {
        Ok(None)
    } else if p[0] == '!' {
        match spec_parse_ip_network(p.drop_first()) {
            Some(n) => Ok(Some(IpPolicy::Deny(n))),
            None => Err(PolicyErrorKind::InvalidNetwork),
        }
    } else {
        match spec_parse_ip_network(p) {
            Some(n) => Ok(Some(IpPolicy::Allow(n))),
            None => Err(PolicyErrorKind::InvalidNetwork),
        }
    }
}

pub open spec fn parse_time_part_spec(p: Seq<char>, now: Timestamp) -> Option<Option<FixedDateTime>> {
    if p.len() == 0 {
        Some(None)
    } else {
        match parse_time_spec(p, now) {
            Some(d) => Some(Some(d)),
            None => None,
        }
    }
}

/// What a policy text denotes, its clock times placed on the local date of `now`.
/// A clock time that reads well but cannot be placed, because `now` is too close to
/// an end of chrono's range, refuses the text with `ClockOutOfRange`.
pub open spec fn parse_policy_spec(s: Seq<char>, now: Timestamp) -> Result<ExtendPolicy, PolicyErrorKind> {
    let parts = split_spec(s, ',');
    match parse_ip_part_spec(part(parts, 0)) {
        Err(k) => Err(k),
        Ok(ip_policy) => match parse_time_part_spec(part(parts, 1), now) {
            None => Err(PolicyErrorKind::InvalidStartTime),
            Some(start_time) => if start_time is Some && !clock_safe(now) {
                Err(PolicyErrorKind::ClockOutOfRange)
            } else {
                match parse_time_part_spec(part(parts, 2), now) {
                None => Err(PolicyErrorKind::InvalidEndTime),
                Some(end_time) => {
                    if end_time is Some && !clock_safe(now) {
                        Err(PolicyErrorKind::ClockOutOfRange)
                    } else if start_time is Some != end_time is Some {
                        Err(PolicyErrorKind::UnpairedTimes)
                    } else if start_time is Some && start_time->0.offset != end_time->0.offset {
                        Err(PolicyErrorKind::TimezoneMismatch)
                    } else {
                        let e = part(parts, 3);
                        if e.len() == 0 {
                            Ok(ExtendPolicy { ip_policy, start_time, end_time, expire_date: None })
                        } else {
                            match spec_parse_datetime(e, date_format()) {
                                None => Err(PolicyErrorKind::InvalidExpireDate),
                                Some(d) => Ok(
                                    ExtendPolicy {
                                        ip_policy,
                                        start_time,
                                        end_time,
                                        expire_date: Some(d),
                                    },
                                ),
                            }
                        }
                    }
                },
            }
            },
        },
    }
}

fn part_at(parts: &Vec<Vec<char>>, i: usize) -> (r: Vec<char>)
    ensures
        r@ == part(views(parts@), i as int),
{
    if i < parts.len() {
        parts[i].clone()
    } else {
        Vec::new()
    }
}

fn parse_ip_part(p: &Vec<char>) -> (r: Result<Option<IpPolicy>, PolicyParseError>)
    ensures
        match r {
            Ok(v) => parse_ip_part_spec(p@) == Ok::<Option<IpPolicy>, PolicyErrorKind>(v) && (v matches Some(q) ==> q.net().wf()),
            Err(e) => parse_ip_part_spec(p@) == Err::<Option<IpPolicy>, PolicyErrorKind>(e.kind()),
        },
{
    if p.len() == 0 {
        return Ok(None);
    }
    if p[0] == '!' {
        let mut rest: Vec<char> = Vec::new();
        let mut i: usize = 1;
        while i < p.len()
            invariant
                1 <= i <= p.len(),
                rest@ == p@.subrange(1, i as int),
            decreases p.len() - i,
        {
            rest.push(p[i]);
            i = i + 1;
        }
        assert(rest@ =~= p@.drop_first());
        let text = chars_to_string(&rest);
        match parse_ip_network(text.as_str()) {
            Ok(n) => Ok(Some(IpPolicy::Deny(n))),
            Err(m) => Err(PolicyParseError::InvalidNetwork(m)),
        }
    } else {
        let text = chars_to_string(p);
        match parse_ip_network(text.as_str()) {
            Ok(n) => Ok(Some(IpPolicy::Allow(n))),
            Err(m) => Err(PolicyParseError::InvalidNetwork(m)),
        }
    }
}

impl ExtendPolicy {
    /// Parses a policy text, placing its clock times on the local date of `now`.
    pub fn parse_at(s: &str, now: Timestamp) -> (r: Result<ExtendPolicy, PolicyParseError>)
        ensures
            match r {
                Ok(p) => parse_policy_spec(s@, now) == Ok::<ExtendPolicy, PolicyErrorKind>(p) && p.wf(),
                Err(e) => parse_policy_spec(s@, now) == Err::<ExtendPolicy, PolicyErrorKind>(e.kind()),
            },
    {
        let chars = str_chars(s);
        let parts = split_chars(&chars, ',');
        let p0 = part_at(&parts, 0);
        let ip_policy = match parse_ip_part(&p0) {
            Ok(v) => v,
            Err(e) => return Err(e),
        };
        let p1 = part_at(&parts, 1);
        let start_time = if p1.len() == 0 {
            None
        } else {
            match parse_time(&p1, now) {
                Ok(d) => Some(d),
                Err(Some(m)) => return Err(PolicyParseError::InvalidStartTime(m)),
                Err(None) => return Err(PolicyParseError::ClockOutOfRange),
            }
        };
        let p2 = part_at(&parts, 2);
        let end_time = if p2.len() == 0 {
            None
        } else {
            match parse_time(&p2, now) {
                Ok(d) => Some(d),
                Err(Some(m)) => return Err(PolicyParseError::InvalidEndTime(m)),
                Err(None) => return Err(PolicyParseError::ClockOutOfRange),
            }
        };
        match (start_time, end_time) {
            (Some(_), None) | (None, Some(_)) => return Err(PolicyParseError::UnpairedTimes),
            (Some(a), Some(b)) => {
                if a.offset != b.offset {
                    return Err(PolicyParseError::TimezoneMismatch);
                }
            },
            _ => {},
        }
        let p3 = part_at(&parts, 3);
        let expire_date = if p3.len() == 0 {
            None
        } else {
            let text = chars_to_string(&p3);
            match parse_datetime(text.as_str(), "%Y-%m-%d %H:%M:%S %z") {
                Ok(d) => Some(d),
                Err(m) => return Err(PolicyParseError::InvalidExpireDate(m)),
            }
        };
        Ok(ExtendPolicy { ip_policy, start_time, end_time, expire_date })
    }
}


/// `kind` as the error of a parse result.
pub open spec fn parse_result_matches(
    r: Result<ExtendPolicy, PolicyParseError>,
    expected: Result<ExtendPolicy, PolicyErrorKind>,
) -> bool {
    match r {
        Ok(p) => expected == Ok::<ExtendPolicy, PolicyErrorKind>(p),
        Err(e) => expected == Err::<ExtendPolicy, PolicyErrorKind>(e.kind()),
    }
}

impl ExtendPolicy {
    /// Parses a policy text (as `FromStr` does), placing its clock times on today's
    /// date as the system clock gives it.
    pub fn from_str(s: &str) -> (r: Result<ExtendPolicy, PolicyParseError>)
        ensures
            exists|now: Timestamp|
                clock_reading(now) && #[trigger] parse_result_matches(r, parse_policy_spec(s@, now)),
            r matches Ok(p) ==> p.wf(),
    {
        let now = utc_now();
        let r = ExtendPolicy::parse_at(s, now);
        assert(parse_result_matches(r, parse_policy_spec(s@, now)));
        r
    }
}

// ---------------------------------------------------------------------------
// Writing a policy back
// ---------------------------------------------------------------------------

pub open spec fn ip_part_text(p: Option<IpPolicy>) -> Seq<char> {
    match p {
        None => Seq::empty(),
        Some(IpPolicy::Allow(n)) => spec_ip_network_string(n),
        Some(IpPolicy::Deny(n)) => seq!['!'] + spec_ip_network_string(n),
    }
}

pub open spec fn time_part_text(d: Option<FixedDateTime>, fmt: Seq<char>) -> Seq<char> {
    match d {
        None => Seq::empty(),
        Some(d) => spec_format_datetime(d, fmt),
    }
}

/// The text of a policy: its four parts joined by commas, absent parts empty.
pub open spec fn policy_text(p: ExtendPolicy) -> Seq<char> {
    ip_part_text(p.ip_policy) + seq![','] + time_part_text(p.start_time, clock_format()) + seq![
        ',',
    ] + time_part_text(p.end_time, clock_format()) + seq![','] + time_part_text(
        p.expire_date,
        date_format(),
    )
}

fn append_str(v: &mut Vec<char>, s: &str)
    ensures
        final(v)@ == old(v)@ + s@,
{
    let cs = str_chars(s);
    let mut i: usize = 0;
    let ghost start = v@;
    while i < cs.len()
        invariant
            i <= cs.len(),
            v@ == start + cs@.take(i as int),
        decreases cs.len() - i,
    {
        v.push(cs[i]);
        i = i + 1;
        assert(cs@.take(i as int) == cs@.take((i - 1) as int).push(cs@[i - 1]));
    }
    assert(cs@.take(cs.len() as int) =~= cs@);
}

fn append_time(v: &mut Vec<char>, d: Option<FixedDateTime>, full: bool)
    requires
        d matches Some(x) ==> dt_valid(x),
    ensures
        final(v)@ == old(v)@ + time_part_text(
            d,
            if full {
                date_format()
            } else {
                clock_format()
            },
        ),
{
    match d {
        None => {
            assert(old(v)@ + Seq::<char>::empty() =~= old(v)@);
        },
        Some(x) => {
            let text = if full {
                format_datetime(x, "%Y-%m-%d %H:%M:%S %z")
            } else {
                format_datetime(x, "%H:%M %z")
            };
            append_str(v, text.as_str());
        },
    }
}

impl ExtendPolicy {
    /// The text of the policy (what `Display` writes), which `from_str` reads back.
    pub fn to_policy_string(&self) -> (s: String)
        requires
            self.printable(),
        ensures
            s@ == policy_text(*self),
            self.ip_policy matches Some(p) ==> network_text_reads_back(p.net()),
    {
        let mut v: Vec<char> = Vec::new();
        match self.ip_policy {
            None => {},
            Some(IpPolicy::Allow(n)) => {
                let t = ip_network_string(n);
                append_str(&mut v, t.as_str());
            },
            Some(IpPolicy::Deny(n)) => {
                v.push('!');
                let t = ip_network_string(n);
                append_str(&mut v, t.as_str());
            },
        }
        assert(v@ =~= ip_part_text(self.ip_policy));
        v.push(',');
        append_time(&mut v, self.start_time, false);
        v.push(',');
        append_time(&mut v, self.end_time, false);
        v.push(',');
        append_time(&mut v, self.expire_date, true);
        assert(v@ =~= policy_text(*self));
        chars_to_string(&v)
    }

    /// Start and end time are both given or both absent, and share one offset:
    /// what a policy must satisfy to be stored.
    pub open spec fn times_consistent(self) -> bool {
        match (self.start_time, self.end_time) {
            (Some(a), Some(b)) => a.offset == b.offset,
            (None, None) => true,
            _ => false,
        }
    }

    /// The stored form of a policy (what serializing writes): its text, or the
    /// reason the time bounds cannot be stored.
    pub fn to_stored_string(&self) -> (r: Result<String, PolicyParseError>)
        requires
            self.printable(),
        ensures
            match r {
                Ok(s) => self.times_consistent() && s@ == policy_text(*self),
                Err(e) => !self.times_consistent() && e.kind() == (if self.start_time is Some
                    != self.end_time is Some {
                    PolicyErrorKind::UnpairedTimes
                } else {
                    PolicyErrorKind::TimezoneMismatch
                }),
            },
    {
        match (self.start_time, self.end_time) {
            (Some(_), None) | (None, Some(_)) => {
                return Err(PolicyParseError::UnpairedTimes);
            },
            (Some(a), Some(b)) => {
                if a.offset != b.offset {
                    return Err(PolicyParseError::TimezoneMismatch);
                }
            },
            _ => {},
        }
        Ok(self.to_policy_string())
    }
}

// ---------------------------------------------------------------------------
// Checking a request against a policy
// ---------------------------------------------------------------------------

/// Whether a request satisfies a parsed policy: the address passes the IP condition,
/// the time lies in the daily window, and the policy has not expired.
pub open spec fn admits(req: ExtendPolicyReq, p: ExtendPolicy) -> bool {
    &&& ip_in_cidr_spec(req.ip, p.ip_policy)
    &&& in_period_spec(req.now, p.start_time, p.end_time)
    &&& (p.expire_date matches Some(ep) ==> before(req.now.secs, req.now.nanos, ep.secs, ep.nanos))
}

/// The outcome of checking a request against a policy text whose clock times are
/// placed on the date of `now`.
pub open spec fn verify_spec(req: ExtendPolicyReq, s: Seq<char>, now: Timestamp) -> Result<bool, PolicyErrorKind> {
    match parse_policy_spec(s, now) {
        Err(k) => Err(k),
        Ok(p) => Ok(admits(req, p)),
    }
}

pub open spec fn verify_result_matches(
    r: Result<bool, PolicyParseError>,
    expected: Result<bool, PolicyErrorKind>,
) -> bool {
    match r {
        Ok(b) => expected == Ok::<bool, PolicyErrorKind>(b),
        Err(e) => expected == Err::<bool, PolicyErrorKind>(e.kind()),
    }
}

/// Checks a request against a policy text, the text's clock times placed on the date of `now`.
pub fn verify_extend_policy_at(ext_req: &ExtendPolicyReq, ext_str: &str, now: Timestamp) -> (r:
    Result<bool, PolicyParseError>)
    ensures
        verify_result_matches(r, verify_spec(*ext_req, ext_str@, now)),
{
    let ext = match ExtendPolicy::parse_at(ext_str, now) {
        Ok(p) => p,
        Err(e) => return Err(e),
    };
    if !is_ip_in_cidr(ext_req.ip, ext.ip_policy) {
        return Ok(false);
    }
    if !is_in_period(ext_req.now, ext.start_time, ext.end_time) {
        return Ok(false);
    }
    if let Some(ep) = ext.expire_date {
        if !instant_before(ext_req.now.secs, ext_req.now.nanos, ep.secs, ep.nanos) {
            return Ok(false);
        }
    }
    Ok(true)
}

/// Checks a request against a policy text, whose clock times are placed on today's
/// date as the system clock gives it.
pub fn verify_extend_policy(ext_req: &ExtendPolicyReq, ext_str: &str) -> (r: Result<bool, PolicyParseError>)
    ensures
        exists|now: Timestamp|
            clock_reading(now) && #[trigger] verify_result_matches(r, verify_spec(*ext_req, ext_str@, now)),
{
    let now = utc_now();
    let r = verify_extend_policy_at(ext_req, ext_str, now);
    assert(verify_result_matches(r, verify_spec(*ext_req, ext_str@, now)));
    r
}

// ---------------------------------------------------------------------------
// Laws
// ---------------------------------------------------------------------------

/// A request is let in by a readable policy exactly when it passes all three of its
/// conditions, each on its own: the address passes the IP condition, the time lies in
/// the daily window (whatever the IP condition is), and the expiry, if any, has not
/// come. A policy that cannot be read gives its error.
pub proof fn law_policy_conditions_all_apply(req: ExtendPolicyReq, s: Seq<char>, now: Timestamp)
    ensures
        match parse_policy_spec(s, now) {
            Ok(p) => verify_spec(req, s, now) == Ok::<bool, PolicyErrorKind>(
                ip_in_cidr_spec(req.ip, p.ip_policy) && in_period_spec(req.now, p.start_time, p.end_time)
                    && match p.expire_date {
                    Some(ep) => before(req.now.secs, req.now.nanos, ep.secs, ep.nanos),
                    None => true,
                },
            ),
            Err(k) => verify_spec(req, s, now) == Err::<bool, PolicyErrorKind>(k),
        },
        verify_spec(req, s, now) == Ok::<bool, PolicyErrorKind>(true) ==> (parse_policy_spec(s, now) matches Ok(p)
            && in_period_spec(req.now, p.start_time, p.end_time)),
{
}

/// An empty policy text has no conditions: it admits every request.
pub proof fn law_empty_policy_admits_all(req: ExtendPolicyReq, now: Timestamp)
    ensures
        verify_spec(req, Seq::<char>::empty(), now) == Ok::<bool, PolicyErrorKind>(true),
{
    let parts = split_spec(Seq::<char>::empty(), ',');
    assert(parts == seq![Seq::<char>::empty()]);
    assert(part(parts, 0) == Seq::<char>::empty());
    assert(part(parts, 1) == Seq::<char>::empty());
    assert(part(parts, 2) == Seq::<char>::empty());
    assert(part(parts, 3) == Seq::<char>::empty());
}

/// For a known address, `Deny` of a network admits exactly what `Allow` of it refuses.
pub proof fn law_deny_complements_allow(ip: IpAddress, n: IpNet)
    ensures
        ip_in_cidr_spec(Some(ip), Some(IpPolicy::Deny(n))) == !ip_in_cidr_spec(
            Some(ip),
            Some(IpPolicy::Allow(n)),
        ),
{
}

/// Without an IP condition every client passes, known address or not.
pub proof fn law_no_ip_condition(ip: Option<IpAddress>)
    ensures
        ip_in_cidr_spec(ip, None),
{
}

/// A window whose end comes before its start wraps around midnight: it holds every
/// instant outside `[end, start)`.
pub proof fn law_wrapped_period(t: Timestamp, s: FixedDateTime, e: FixedDateTime)
    requires
        before(e.secs, e.nanos, s.secs, s.nanos),
    ensures
        in_period_spec(t, Some(s), Some(e)) == !(!before(t.secs, t.nanos, e.secs, e.nanos) && before(
            t.secs,
            t.nanos,
            s.secs,
            s.nanos,
        )),
{
}

/// The start of a window is inside it and its end is not (when the end does not come
/// before the start).
pub proof fn law_period_half_open(s: FixedDateTime, e: FixedDateTime)
    requires
        before(s.secs, s.nanos, e.secs, e.nanos),
    ensures
        in_period_spec(Timestamp { secs: s.secs, nanos: s.nanos }, Some(s), Some(e)),
        !in_period_spec(Timestamp { secs: e.secs, nanos: e.nanos }, Some(s), Some(e)),
{
}

} // verus!
