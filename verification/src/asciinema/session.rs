//! Recording a session: the events sent to the recording, and the clock that stamps
//! them. The clock stops while the recording is paused, and the paused time is left
//! out of the recording.
//!
//! Times are microseconds. The caller reads its monotonic clock (`now`, counted from
//! the start of the session) and hands it to these functions; it also decodes the
//! bytes and sends the events.
use vstd::prelude::*;
use crate::asciinema::tty::TtySize;

verus! {

/// An event of a recording session, with its time in microseconds.
pub enum Event {
    Output(u64, String),
    Input(u64, String),
    Resize(u64, TtySize),
    Marker(u64, String),
    Exit(u64, i32),
}

/// The terminal a session runs in.
pub struct TermInfo {
    pub type_: Option<String>,
    pub version: Option<String>,
    pub size: TtySize,
}

/// What to do with bytes typed by the user.
#[derive(Clone, Copy, Debug, PartialEq, Eq, Structural)]
pub enum InputAction {
    /// The bytes were a key of the recorder; they go no further.
    Consumed,
    /// The bytes asked for a marker at this time; they go no further.
    AddMarker(u64),
    /// The bytes go on to the session; when a time is given they are also recorded
    /// as input at that time.
    Forward(Option<u64>),
}

/// The deciding part of a recording session: whether it is paused (and since when),
/// how much paused time to leave out, the last terminal size, and the keys that
/// control the recorder.
pub struct SessionState {
    pub pause_time: Option<u64>,
    pub prefix_mode: bool,
    pub record_input: bool,
    pub time_offset: u64,
    pub tty_size: TtySize,
    pub prefix_key: Option<Vec<u8>>,
    pub pause_key: Option<Vec<u8>>,
    pub add_marker_key: Option<Vec<u8>>,
}

/// The clock can be read at `now`: not paused, and `now` is not before the time
/// left out.
pub open spec fn clock_ok(s: SessionState, now: u64) -> bool {
    s.pause_time is Some || s.time_offset <= now
}

/// The session time at `now`: the pause time while paused, else `now` less the time
/// left out.
pub open spec fn elapsed(s: SessionState, now: u64) -> u64 {
    match s.pause_time {
        Some(p) => p,
        None => (now - s.time_offset) as u64,
    }
}

pub open spec fn key_is(key: Option<Vec<u8>>, data: Seq<u8>) -> bool {
    key matches Some(k) && k@ == data
}

/// Whether the bytes reach the pause and marker keys: after the prefix key, or
/// always when there is no prefix key.
pub open spec fn keys_active(s: SessionState) -> bool {
    s.prefix_mode || s.prefix_key is None
}

/// The state and the action after bytes typed at `now`.
pub open spec fn input_step(s: SessionState, data: Seq<u8>, now: u64) -> (SessionState, InputAction) {
    if !s.prefix_mode && key_is(s.prefix_key, data) {
        (SessionState { prefix_mode: true, ..s }, InputAction::Consumed)
    } else if keys_active(s) && key_is(s.pause_key, data) {
        let t = SessionState { prefix_mode: false, ..s };
        match s.pause_time {
            Some(p) => (
                SessionState {
                    pause_time: None,
                    time_offset: (s.time_offset + ((now - s.time_offset) - p)) as u64,
                    ..t
                },
                InputAction::Consumed,
            ),
            None => (SessionState { pause_time: Some(elapsed(s, now)), ..t }, InputAction::Consumed),
        }
    } else if keys_active(s) && key_is(s.add_marker_key, data) {
        (SessionState { prefix_mode: false, ..s }, InputAction::AddMarker(elapsed(s, now)))
    } else {
        let t = if keys_active(s) {
            SessionState { prefix_mode: false, ..s }
        } else {
            s
        };
        (
            t,
            InputAction::Forward(
                if s.record_input && s.pause_time is None {
                    Some(elapsed(s, now))
                } else {
                    None
                },
            ),
        )
    }
}

/// What the step needs of the clock: it can be read, and when the pause ends, `now`
/// is not before the pause began.
pub open spec fn input_step_ok(s: SessionState, data: Seq<u8>, now: u64) -> bool {
    &&& clock_ok(s, now)
    &&& s.pause_time matches Some(p) ==> (keys_active(s) && key_is(s.pause_key, data) && !(
        !s.prefix_mode && key_is(s.prefix_key, data)) ==> s.time_offset + p <= now)
}

fn bytes_eq(a: &[u8], b: &Vec<u8>) -> (r: bool)
    ensures
        r == (a@ == b@),
{
    if a.len() != b.len() {
        return false;
    }
    let mut i: usize = 0;
    while i < a.len()
        invariant
            i <= a.len(),
            a.len() == b.len(),
            forall|j: int| 0 <= j < i ==> a@[j] == b@[j],
        decreases a.len() - i,
    {
        if a[i] != b[i] {
            return false;
        }
        i = i + 1;
    }
    assert(a@ =~= b@);
    true
}

fn matches_key(key: &Option<Vec<u8>>, data: &[u8]) -> (r: bool)
    ensures
        r == key_is(*key, data@),
{
    match key {
        Some(k) => bytes_eq(data, k),
        None => false,
    }
}

impl SessionState {
    /// A session that has just started: not paused, nothing left out, no recorder
    /// keys.
    pub fn new(record_input: bool, tty_size: TtySize) -> (s: Self)
        ensures
            s.pause_time is None,
            !s.prefix_mode,
            s.record_input == record_input,
            s.time_offset == 0,
            s.tty_size == tty_size,
            s.prefix_key is None,
            s.pause_key is None,
            s.add_marker_key is None,
    {
        SessionState {
            pause_time: None,
            prefix_mode: false,
            record_input,
            time_offset: 0,
            tty_size,
            prefix_key: None,
            pause_key: None,
            add_marker_key: None,
        }
    }

    /// The session time at `now`.
    pub fn elapsed_time(&self, now: u64) -> (t: u64)
        requires
            clock_ok(*self, now),
        ensures
            t == elapsed(*self, now),
    {
        match self.pause_time {
            Some(p) => p,
            None => now - self.time_offset,
        }
    }

    /// The time to stamp output with, or `None` while paused (output is then not
    /// recorded).
    pub fn output_time(&self, now: u64) -> (t: Option<u64>)
        requires
            clock_ok(*self, now),
        ensures
            t == if self.pause_time is None {
                Some(elapsed(*self, now))
            } else {
                None
            },
    {
        if self.pause_time.is_none() {
            Some(self.elapsed_time(now))
        } else {
            None
        }
    }

    /// Bytes typed by the user at `now`: the prefix key arms the other keys, the
    /// pause key pauses or resumes, the marker key asks for a marker; anything else
    /// goes on to the session, and is recorded when input is recorded and the
    /// session is not paused.
    pub fn handle_input(&mut self, data: &[u8], now: u64) -> (a: InputAction)
        requires
            input_step_ok(*old(self), data@, now),
        ensures
            (*final(self), a) == input_step(*old(self), data@, now),
    {
        if !self.prefix_mode && matches_key(&self.prefix_key, data) {
            self.prefix_mode = true;
            return InputAction::Consumed;
        }
        let active = self.prefix_mode || self.prefix_key.is_none();
        if active {
            self.prefix_mode = false;
            if matches_key(&self.pause_key, data) {
                match self.pause_time {
                    Some(pt) => {
                        self.pause_time = None;
                        self.time_offset = self.time_offset + (self.elapsed_time(now) - pt);
                    },
                    None => {
                        self.pause_time = Some(self.elapsed_time(now));
                    },
                }
                return InputAction::Consumed;
            } else if matches_key(&self.add_marker_key, data) {
                return InputAction::AddMarker(self.elapsed_time(now));
            }
        }
        if self.record_input && self.pause_time.is_none() {
            InputAction::Forward(Some(self.elapsed_time(now)))
        } else {
            InputAction::Forward(None)
        }
    }

    /// A new terminal size at `now`: a resize event when it differs from the last
    /// one, which it then replaces.
    pub fn handle_resize(&mut self, tty_size: TtySize, now: u64) -> (e: Option<Event>)
        requires
            clock_ok(*old(self), now),
        ensures
            if tty_size != old(self).tty_size {
                &&& e == Some(Event::Resize(elapsed(*old(self), now), tty_size))
                &&& *final(self) == (SessionState { tty_size, ..*old(self) })
            } else {
                e is None && *final(self) == *old(self)
            },
    {
        if tty_size != self.tty_size {
            let e = Event::Resize(self.elapsed_time(now), tty_size);
            self.tty_size = tty_size;
            Some(e)
        } else {
            None
        }
    }

    /// The exit event at `now`.
    pub fn handle_exit(&self, status: i32, now: u64) -> (e: Event)
        requires
            clock_ok(*self, now),
        ensures
            e == Event::Exit(elapsed(*self, now), status),
    {
        Event::Exit(self.elapsed_time(now), status)
    }

    /// A marker event at `now`.
    pub fn handle_marker(&self, label: String, now: u64) -> (e: Event)
        requires
            clock_ok(*self, now),
        ensures
            e == Event::Marker(elapsed(*self, now), label),
    {
        Event::Marker(self.elapsed_time(now), label)
    }
}

/// While paused the session clock stands still.
pub proof fn law_paused_clock_stands_still(s: SessionState, now1: u64, now2: u64)
    requires
        s.pause_time is Some,
    ensures
        elapsed(s, now1) == elapsed(s, now2),
{
}

/// Pausing at `now1` and resuming at `now2` leaves the pause out of the recording:
/// afterwards the clock reads as if it had gone on from where it stopped.
pub proof fn law_pause_is_left_out(s: SessionState, k: Seq<u8>, now1: u64, now2: u64, now3: u64)
    requires
        s.pause_time is None,
        s.prefix_key is None,
        s.pause_key matches Some(p) && p@ == k,
        s.time_offset <= now1 <= now2 <= now3,
    ensures
        ({
            let s1 = input_step(s, k, now1).0;
            let s2 = input_step(s1, k, now2).0;
            &&& s1.pause_time == Some(elapsed(s, now1))
            &&& s2.pause_time is None
            &&& elapsed(s2, now3) == elapsed(s, now1) + (now3 - now2)
        }),
{
}

} // verus!
