//! Events of an asciicast recording, and the limit on idle time applied when a
//! recording is played.
use vstd::prelude::*;
use std::time::Duration;
use crate::asciinema::session;

verus! {

/// One recorded event, at a time since the start of the recording.
pub struct Event {
    pub time: Duration,
    pub data: EventData,
}

/// What happened.
pub enum EventData {
    Output(String),
    Input(String),
    Resize(u16, u16),
    Marker(String),
    Exit(i32),
    Other(char, String),
}

impl Event {
    /// Output written to the terminal.
    pub fn output(time: Duration, text: String) -> (e: Self)
        ensures
            e.time == time,
            e.data == EventData::Output(text),
    {
        Event { time, data: EventData::Output(text) }
    }

    /// Input typed by the user.
    pub fn input(time: Duration, text: String) -> (e: Self)
        ensures
            e.time == time,
            e.data == EventData::Input(text),
    {
        Event { time, data: EventData::Input(text) }
    }

    /// A new terminal size: columns, then rows.
    pub fn resize(time: Duration, size: (u16, u16)) -> (e: Self)
        ensures
            e.time == time,
            e.data == EventData::Resize(size.0, size.1),
    {
        Event { time, data: EventData::Resize(size.0, size.1) }
    }

    /// A marker with a label.
    pub fn marker(time: Duration, label: String) -> (e: Self)
        ensures
            e.time == time,
            e.data == EventData::Marker(label),
    {
        Event { time, data: EventData::Marker(label) }
    }

    /// The end of the session, with its exit status.
    pub fn exit(time: Duration, status: i32) -> (e: Self)
        ensures
            e.time == time,
            e.data == EventData::Exit(status),
    {
        Event { time, data: EventData::Exit(status) }
    }
}

/// The length of a duration in nanoseconds (`Duration::as_nanos`).
pub uninterp spec fn spec_duration_nanos(d: Duration) -> u128;

/// `Duration::as_nanos`. Claimed: the named length.
#[verifier::external_body]
fn duration_nanos(d: &Duration) -> (n: u128)
    ensures
        n == spec_duration_nanos(*d),
{
    d.as_nanos()
}

/// `Duration::from_nanos`. Claimed: the result is `n` nanoseconds long.
#[verifier::external_body]
fn duration_from_nanos(n: u64) -> (d: Duration)
    ensures
        spec_duration_nanos(d) == n,
{
    Duration::from_nanos(n)
}

/// The duration of `n` microseconds (`Duration::from_micros`).
pub uninterp spec fn spec_duration_from_micros(n: u64) -> Duration;

/// `Duration::from_micros`. Claimed: the named duration, which is `n` thousand
/// nanoseconds long.
#[verifier::external_body]
fn duration_from_micros(n: u64) -> (d: Duration)
    ensures
        d == spec_duration_from_micros(n),
        spec_duration_nanos(d) == n * 1000,
{
    Duration::from_micros(n)
}

/// The recorded form of a session event: its time in microseconds becomes a
/// duration, its data is kept.
pub open spec fn recorded_event(e: session::Event) -> Event {
    match e {
        session::Event::Output(t, text) => Event {
            time: spec_duration_from_micros(t),
            data: EventData::Output(text),
        },
        session::Event::Input(t, text) => Event {
            time: spec_duration_from_micros(t),
            data: EventData::Input(text),
        },
        session::Event::Resize(t, size) => Event {
            time: spec_duration_from_micros(t),
            data: EventData::Resize(size.0, size.1),
        },
        session::Event::Marker(t, label) => Event {
            time: spec_duration_from_micros(t),
            data: EventData::Marker(label),
        },
        session::Event::Exit(t, status) => Event {
            time: spec_duration_from_micros(t),
            data: EventData::Exit(status),
        },
    }
}

impl From<session::Event> for Event {
    fn from(event: session::Event) -> (r: Self) {
        match event {
            session::Event::Output(time, text) => Event::output(duration_from_micros(time), text),
            session::Event::Input(time, text) => Event::input(duration_from_micros(time), text),
            session::Event::Resize(time, tty_size) => Event::resize(
                duration_from_micros(time),
                (tty_size.0, tty_size.1),
            ),
            session::Event::Marker(time, label) => Event::marker(duration_from_micros(time), label),
            session::Event::Exit(time, status) => Event::exit(duration_from_micros(time), status),
        }
    }
}

impl vstd::std_specs::convert::FromSpecImpl<session::Event> for Event {
    open spec fn obeys_from_spec() -> bool {
        true
    }

    open spec fn from_spec(event: session::Event) -> Event {
        recorded_event(event)
    }
}

/// The times of the events, in nanoseconds.
pub open spec fn event_times(events: Seq<Event>) -> Seq<int> {
    events.map_values(|e: Event| spec_duration_nanos(e.time) as int)
}

/// The time removed from the recording up to and including its `n`-th event: each
/// pause longer than `limit` (counted from the start for the first event) is cut to
/// `limit`.
pub open spec fn idle_offset(t: Seq<int>, limit: int, n: nat) -> int
    decreases n,
{
    if n == 0 {
        0
    } else {
        let prev = if n == 1 {
            0
        } else {
            t[n - 2]
        };
        let delay = t[n - 1] - prev;
        idle_offset(t, limit, (n - 1) as nat) + if delay > limit {
            delay - limit
        } else {
            0
        }
    }
}

/// The time of event `i` once long pauses are cut.
pub open spec fn limited_time(t: Seq<int>, limit: int, i: int) -> int {
    t[i] - idle_offset(t, limit, (i + 1) as nat)
}

/// The times never go back, and fit the range that a duration can be made from.
pub open spec fn times_ok(t: Seq<int>) -> bool {
    &&& forall|i: int| 0 <= i < t.len() ==> 0 <= #[trigger] t[i] <= u64::MAX
    &&& forall|i: int, j: int| 0 <= i <= j < t.len() ==> t[i] <= t[j]
}

proof fn lemma_offset_bounds(t: Seq<int>, limit: int, n: nat)
    requires
        times_ok(t),
        limit >= 0,
        1 <= n <= t.len(),
    ensures
        0 <= idle_offset(t, limit, n) <= t[n - 1],
    decreases n,
{
    assert(0 <= t[n - 1]);
    if n > 1 {
        lemma_offset_bounds(t, limit, (n - 1) as nat);
        assert(t[n - 2] <= t[n - 1]);
    } else {
        assert(idle_offset(t, limit, 0) == 0);
    }
}

/// Times in nanoseconds, as integers.
pub open spec fn nanos_ints(times: Seq<u64>) -> Seq<int> {
    times.map_values(|x: u64| x as int)
}

/// Cuts every pause longer than `limit` to `limit` in a list of event times (in
/// nanoseconds, never going back): each time is moved earlier by the time cut
/// before it.
pub fn limit_idle_times(times: &Vec<u64>, limit: u64) -> (r: Vec<u64>)
    requires
        times_ok(nanos_ints(times@)),
    ensures
        r@.len() == times@.len(),
        forall|i: int| 0 <= i < r@.len() ==> #[trigger] r@[i] == limited_time(nanos_ints(times@), limit as int, i),
{
    let ghost t = nanos_ints(times@);
    let ghost lim = limit as int;
    let mut prev: u64 = 0;
    let mut offset: u64 = 0;
    let mut r: Vec<u64> = Vec::new();
    let mut k: usize = 0;
    while k < times.len()
        invariant
            k <= times.len(),
            t == nanos_ints(times@),
            lim == limit as int,
            times_ok(t),
            r@.len() == k,
            offset == idle_offset(t, lim, k as nat),
            prev == if k == 0 {
                0
            } else {
                t[k - 1]
            },
            forall|i: int| 0 <= i < k ==> #[trigger] r@[i] == limited_time(t, lim, i),
        decreases times.len() - k,
    {
        let now = times[k];
        assert(t[k as int] == now);
        proof {
            if k > 0 {
                assert(t[k - 1] <= t[k as int]);
                lemma_offset_bounds(t, lim, k as nat);
            }
            lemma_offset_bounds(t, lim, (k + 1) as nat);
        }
        let delay = now - prev;
        if delay > limit {
            offset = offset + (delay - limit);
        }
        prev = now;
        r.push(now - offset);
        k = k + 1;
    }
    r
}

/// Cuts every pause longer than `limit` to `limit`: each event keeps its data and
/// is moved earlier by the time cut before it.
pub fn limit_idle_time(events: Vec<Event>, limit: Duration) -> (r: Vec<Event>)
    requires
        times_ok(event_times(events@)),
        spec_duration_nanos(limit) <= u64::MAX,
    ensures
        r.len() == events.len(),
        forall|i: int|
            0 <= i < r.len() ==> (#[trigger] r@[i]).data == events@[i].data
                && spec_duration_nanos(r@[i].time) == limited_time(
                event_times(events@),
                spec_duration_nanos(limit) as int,
                i,
            ),
{
    let ghost t = event_times(events@);
    let ghost all = events@;
    let mut times: Vec<u64> = Vec::new();
    let mut k: usize = 0;
    while k < events.len()
        invariant
            k <= events.len(),
            all == events@,
            t == event_times(all),
            times_ok(t),
            times@.len() == k,
            forall|i: int| 0 <= i < k ==> #[trigger] times@[i] as int == t[i],
        decreases events.len() - k,
    {
        let n = duration_nanos(&events[k].time);
        assert(t[k as int] == n);
        times.push(n as u64);
        k = k + 1;
    }
    assert(nanos_ints(times@) =~= t);
    let cut = limit_idle_times(&times, duration_nanos(&limit) as u64);
    let mut r: Vec<Event> = Vec::new();
    for e in it: events.into_iter()
        invariant
            it.seq() == all,
            r.len() == it.index(),
            it.index() <= all.len(),
            cut@.len() == all.len(),
            forall|i: int| 0 <= i < cut@.len() ==> #[trigger] cut@[i] == limited_time(t, spec_duration_nanos(limit) as int, i),
            forall|i: int|
                0 <= i < r.len() ==> (#[trigger] r@[i]).data == all[i].data
                    && spec_duration_nanos(r@[i].time) == limited_time(t, spec_duration_nanos(limit) as int, i),
    {
        let k: usize = r.len();
        let time = duration_from_nanos(cut[k]);
        r.push(Event { time, data: e.data });
    }
    r
}

/// [`limit_idle_time`] when it can run: `None` when an event comes before the one
/// before it (a pause cannot be negative) or a time or the limit is longer than
/// `u64::MAX` nanoseconds (the longest duration this crate counts in).
pub fn limit_idle_time_checked(events: Vec<Event>, limit: Duration) -> (r: Option<Vec<Event>>)
    ensures
        match r {
            Some(v) => times_ok(event_times(events@)) && spec_duration_nanos(limit) <= u64::MAX
                && v.len() == events.len() && forall|i: int|
                0 <= i < v.len() ==> (#[trigger] v@[i]).data == events@[i].data
                    && spec_duration_nanos(v@[i].time) == limited_time(
                    event_times(events@),
                    spec_duration_nanos(limit) as int,
                    i,
                ),
            None => !(times_ok(event_times(events@)) && spec_duration_nanos(limit) <= u64::MAX),
        },
{
    let ghost t = event_times(events@);
    let lim = duration_nanos(&limit);
    if lim > u64::MAX as u128 {
        return None;
    }
    let mut prev: u128 = 0;
    let mut k: usize = 0;
    while k < events.len()
        invariant
            k <= events.len(),
            t == event_times(events@),
            forall|i: int| 0 <= i < k ==> 0 <= #[trigger] t[i] <= u64::MAX,
            forall|i: int, j: int| 0 <= i <= j < k ==> t[i] <= t[j],
            k > 0 ==> prev == t[k - 1],
        decreases events.len() - k,
    {
        let n = duration_nanos(&events[k].time);
        assert(t[k as int] == n);
        if n > u64::MAX as u128 || (k > 0 && n < prev) {
            assert(!times_ok(t)) by {
                if n > u64::MAX as u128 {
                    assert(!(t[k as int] <= u64::MAX));
                } else {
                    assert(!(t[k - 1] <= t[k as int]));
                }
            }
            return None;
        }
        prev = n;
        k = k + 1;
    }
    Some(limit_idle_time(events, limit))
}

/// With long pauses cut, the pause before each event is the recorded pause or
/// `limit`, whichever is shorter; the first event comes no later than `limit`.
pub proof fn law_idle_limit(t: Seq<int>, limit: int, i: int)
    requires
        times_ok(t),
        limit >= 0,
        0 <= i < t.len(),
    ensures
        i == 0 ==> limited_time(t, limit, 0) == if t[0] > limit {
            limit
        } else {
            t[0]
        },
        i > 0 ==> limited_time(t, limit, i) - limited_time(t, limit, i - 1) == if t[i] - t[i - 1]
            > limit {
            limit
        } else {
            t[i] - t[i - 1]
        },
{
    if i == 0 {
        assert(idle_offset(t, limit, 0) == 0);
    } else {
        assert(idle_offset(t, limit, (i + 1) as nat) == idle_offset(t, limit, i as nat) + if t[i]
            - t[i - 1] > limit {
            t[i] - t[i - 1] - limit
        } else {
            0
        });
    }
}

} // verus!
