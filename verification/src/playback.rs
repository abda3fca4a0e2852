//! The controls of the recording player: how far the screen is scrolled sideways
//! and up or down, how far back in the kept lines it shows, whether playback is
//! paused, and what each key press asks while playing or paused. Reading the
//! recording, timing it and drawing the screen are the console's.
use vstd::prelude::*;
use crate::table::{move_ok, moved, table_move, table_move_spec, table_wf, AdminTable};
use crate::tui::{shown_opt, Key, Message, Scrollback, ShownMessage, SCROLLBACK_LEN};
use crate::database::RecordingView;
use crate::asciinema::asciicast::EventData;
use crate::manage::widest_of;
use crate::models::user::strings_view;
use crate::table::widest;

verus! {

/// What the player is asked to do after a key press.
#[derive(Clone, Copy, Debug, PartialEq, Eq, Structural)]
pub enum PlaybackAction {
    /// Stop playing and go back to the list.
    Quit,
    /// Pause playback.
    Pause,
    /// Resume playback where it was paused.
    Resume,
    /// Play the next event only.
    Step,
    /// Play up to the next marker.
    SkipToMarker,
    /// Draw the screen again.
    Redraw,
    /// Nothing.
    Ignore,
}

/// The player's controls.
pub struct PlaybackControls {
    pub horizontal_scroll_offset: usize,
    pub max_horizontal_scroll_offset: usize,
    pub vertical_scroll_offset: usize,
    pub max_vertical_scroll_offset: usize,
    pub scrollback: Scrollback,
    pub pause: bool,
}

/// One step on, wrapping from `max` to the first.
pub open spec fn wrap_next(x: usize, max: usize) -> usize {
    if x == max {
        0
    } else if x == usize::MAX {
        x
    } else {
        (x + 1) as usize
    }
}

/// One step back, wrapping from the first to `max`.
pub open spec fn wrap_previous(x: usize, max: usize) -> usize {
    if x == 0 {
        max
    } else {
        (x - 1) as usize
    }
}

fn step_next(x: usize, max: usize) -> (r: usize)
    ensures
        r == wrap_next(x, max),
{
    if x == max {
        0
    } else {
        x.saturating_add(1)
    }
}

fn step_previous(x: usize, max: usize) -> (r: usize)
    ensures
        r == wrap_previous(x, max),
{
    if x == 0 {
        max
    } else {
        x - 1
    }
}

/// The scrollback after a step back (toward older lines), stopping at the oldest kept.
pub open spec fn scrolled_back(s: Scrollback) -> Scrollback {
    Scrollback {
        scroll_position: if s.scroll_position + s.scroll_size > SCROLLBACK_LEN {
            SCROLLBACK_LEN
        } else {
            (s.scroll_position + s.scroll_size) as usize
        },
        ..s
    }
}

/// The scrollback after a step forward (toward the live screen), stopping there.
pub open spec fn scrolled_forward(s: Scrollback) -> Scrollback {
    Scrollback {
        scroll_position: if s.scroll_position < s.scroll_size {
            0
        } else {
            (s.scroll_position - s.scroll_size) as usize
        },
        ..s
    }
}

/// A key press while paused: `q` or Ctrl+C quit; Space resumes; `.` plays one event;
/// `]` plays up to the next marker; the arrows (or `h`, `j`, `k`, `l`) scroll the
/// screen, wrapping around; the page keys (or Ctrl+F, Ctrl+B) move through the kept
/// lines; other keys do nothing.
pub open spec fn paused_step(c: PlaybackControls, key: Key, ctrl: bool) -> (PlaybackControls, PlaybackAction) {
    let redraw = PlaybackAction::Redraw;
    if key == Key::Char('q') || (ctrl && key == Key::Char('c')) {
        (c, PlaybackAction::Quit)
    } else if key == Key::Char(' ') {
        (PlaybackControls { pause: false, ..c }, PlaybackAction::Resume)
    } else if key == Key::Char('.') {
        (c, PlaybackAction::Step)
    } else if key == Key::Char(']') {
        (c, PlaybackAction::SkipToMarker)
    } else if key == Key::Char('l') || key == Key::Right {
        (
            PlaybackControls {
                horizontal_scroll_offset: wrap_next(c.horizontal_scroll_offset, c.max_horizontal_scroll_offset),
                ..c
            },
            redraw,
        )
    } else if key == Key::Char('h') || key == Key::Left {
        (
            PlaybackControls {
                horizontal_scroll_offset: wrap_previous(
                    c.horizontal_scroll_offset,
                    c.max_horizontal_scroll_offset,
                ),
                ..c
            },
            redraw,
        )
    } else if (ctrl && key == Key::Char('f')) || key == Key::PageDown {
        (PlaybackControls { scrollback: scrolled_forward(c.scrollback), ..c }, redraw)
    } else if (ctrl && key == Key::Char('b')) || key == Key::PageUp {
        (PlaybackControls { scrollback: scrolled_back(c.scrollback), ..c }, redraw)
    } else if key == Key::Char('j') || key == Key::Down {
        (
            PlaybackControls {
                vertical_scroll_offset: wrap_next(c.vertical_scroll_offset, c.max_vertical_scroll_offset),
                ..c
            },
            redraw,
        )
    } else if key == Key::Char('k') || key == Key::Up {
        (
            PlaybackControls {
                vertical_scroll_offset: wrap_previous(c.vertical_scroll_offset, c.max_vertical_scroll_offset),
                ..c
            },
            redraw,
        )
    } else {
        (c, PlaybackAction::Ignore)
    }
}

/// A key press while playing: `q` or Ctrl+C quit; Space pauses; the arrows (or `h`,
/// `j`, `k`, `l`) scroll the screen, wrapping around; other keys do nothing.
pub open spec fn playing_step(c: PlaybackControls, key: Key, ctrl: bool) -> (PlaybackControls, PlaybackAction) {
    let redraw = PlaybackAction::Redraw;
    if key == Key::Char('q') || (ctrl && key == Key::Char('c')) {
        (c, PlaybackAction::Quit)
    } else if key == Key::Char(' ') {
        (PlaybackControls { pause: true, ..c }, PlaybackAction::Pause)
    } else if key == Key::Char('l') || key == Key::Right {
        (
            PlaybackControls {
                horizontal_scroll_offset: wrap_next(c.horizontal_scroll_offset, c.max_horizontal_scroll_offset),
                ..c
            },
            redraw,
        )
    } else if key == Key::Char('h') || key == Key::Left {
        (
            PlaybackControls {
                horizontal_scroll_offset: wrap_previous(
                    c.horizontal_scroll_offset,
                    c.max_horizontal_scroll_offset,
                ),
                ..c
            },
            redraw,
        )
    } else if key == Key::Char('j') || key == Key::Down {
        (
            PlaybackControls {
                vertical_scroll_offset: wrap_next(c.vertical_scroll_offset, c.max_vertical_scroll_offset),
                ..c
            },
            redraw,
        )
    } else if key == Key::Char('k') || key == Key::Up {
        (
            PlaybackControls {
                vertical_scroll_offset: wrap_previous(c.vertical_scroll_offset, c.max_vertical_scroll_offset),
                ..c
            },
            redraw,
        )
    } else {
        (c, PlaybackAction::Ignore)
    }
}

impl PlaybackControls {
    /// Controls at the start of a recording whose screen has `rows` rows; the screen
    /// can be scrolled sideways and up or down by up to the given steps.
    pub fn new(rows: usize, max_horizontal: usize, max_vertical: usize) -> (c: Self)
        ensures
            c == (PlaybackControls {
                horizontal_scroll_offset: 0,
                max_horizontal_scroll_offset: max_horizontal,
                vertical_scroll_offset: 0,
                max_vertical_scroll_offset: max_vertical,
                scrollback: Scrollback { scroll_position: 0, scroll_size: rows },
                pause: false,
            }),
    {
        PlaybackControls {
            horizontal_scroll_offset: 0,
            max_horizontal_scroll_offset: max_horizontal,
            vertical_scroll_offset: 0,
            max_vertical_scroll_offset: max_vertical,
            scrollback: Scrollback { scroll_position: 0, scroll_size: rows },
            pause: false,
        }
    }

    /// Playback (re)starts on the live screen.
    pub fn start_playing(&mut self)
        ensures
            *final(self) == (PlaybackControls {
                scrollback: Scrollback { scroll_position: 0, ..old(self).scrollback },
                ..*old(self)
            }),
    {
        self.scrollback.scroll_position = 0;
    }

    /// The screen was resized to `rows` rows: a page of the kept lines is that long.
    pub fn resize(&mut self, rows: usize)
        ensures
            *final(self) == (PlaybackControls {
                scrollback: Scrollback { scroll_size: rows, ..old(self).scrollback },
                ..*old(self)
            }),
    {
        self.scrollback.scroll_size = rows;
    }

    /// Handles a key press while paused. See [`paused_step`].
    pub fn paused_key(&mut self, key: Key, ctrl: bool) -> (a: PlaybackAction)
        requires
            old(self).scrollback.scroll_position + old(self).scrollback.scroll_size <= usize::MAX,
        ensures
            (*final(self), a) == paused_step(*old(self), key, ctrl),
    {
        if key == Key::Char('q') || (ctrl && key == Key::Char('c')) {
            PlaybackAction::Quit
        } else if key == Key::Char(' ') {
            self.pause = false;
            PlaybackAction::Resume
        } else if key == Key::Char('.') {
            PlaybackAction::Step
        } else if key == Key::Char(']') {
            PlaybackAction::SkipToMarker
        } else if key == Key::Char('l') || key == Key::Right {
            self.horizontal_scroll_offset = step_next(self.horizontal_scroll_offset, self.max_horizontal_scroll_offset);
            PlaybackAction::Redraw
        } else if key == Key::Char('h') || key == Key::Left {
            self.horizontal_scroll_offset =
                step_previous(self.horizontal_scroll_offset, self.max_horizontal_scroll_offset);
            PlaybackAction::Redraw
        } else if (ctrl && key == Key::Char('f')) || key == Key::PageDown {
            self.scrollback.decrease_scroll_position();
            PlaybackAction::Redraw
        } else if (ctrl && key == Key::Char('b')) || key == Key::PageUp {
            self.scrollback.increase_scroll_position();
            PlaybackAction::Redraw
        } else if key == Key::Char('j') || key == Key::Down {
            self.vertical_scroll_offset = step_next(self.vertical_scroll_offset, self.max_vertical_scroll_offset);
            PlaybackAction::Redraw
        } else if key == Key::Char('k') || key == Key::Up {
            self.vertical_scroll_offset = step_previous(self.vertical_scroll_offset, self.max_vertical_scroll_offset);
            PlaybackAction::Redraw
        } else {
            PlaybackAction::Ignore
        }
    }

    /// Handles a key press while playing. See [`playing_step`].
    pub fn playing_key(&mut self, key: Key, ctrl: bool) -> (a: PlaybackAction)
        ensures
            (*final(self), a) == playing_step(*old(self), key, ctrl),
    {
        if key == Key::Char('q') || (ctrl && key == Key::Char('c')) {
            PlaybackAction::Quit
        } else if key == Key::Char(' ') {
            self.pause = true;
            PlaybackAction::Pause
        } else if key == Key::Char('l') || key == Key::Right {
            self.horizontal_scroll_offset = step_next(self.horizontal_scroll_offset, self.max_horizontal_scroll_offset);
            PlaybackAction::Redraw
        } else if key == Key::Char('h') || key == Key::Left {
            self.horizontal_scroll_offset =
                step_previous(self.horizontal_scroll_offset, self.max_horizontal_scroll_offset);
            PlaybackAction::Redraw
        } else if key == Key::Char('j') || key == Key::Down {
            self.vertical_scroll_offset = step_next(self.vertical_scroll_offset, self.max_vertical_scroll_offset);
            PlaybackAction::Redraw
        } else if key == Key::Char('k') || key == Key::Up {
            self.vertical_scroll_offset = step_previous(self.vertical_scroll_offset, self.max_vertical_scroll_offset);
            PlaybackAction::Redraw
        } else {
            PlaybackAction::Ignore
        }
    }
}

/// What playing one recorded event asks of the console.
#[derive(Clone, Copy, Debug, PartialEq, Eq, Structural)]
pub enum EventStep {
    /// Feed the output to the terminal emulator.
    Feed,
    /// Give the screen this many columns and rows.
    Resize(u16, u16),
    /// Pause, as if paused at this time (in microseconds).
    PauseAt(u64),
    /// Nothing to do for this event.
    Skip,
}

/// Playing an event recorded at `time_micros`: output is fed to the screen, a resize
/// resizes it, a marker pauses playback when `pause_at_markers` is set; other events
/// are skipped.
pub open spec fn event_step_spec(data: EventData, time_micros: u64, pause_at_markers: bool) -> EventStep {
    match data {
        EventData::Output(_) => EventStep::Feed,
        EventData::Resize(cols, rows) => EventStep::Resize(cols, rows),
        EventData::Marker(_) => if pause_at_markers {
            EventStep::PauseAt(time_micros)
        } else {
            EventStep::Skip
        },
        _ => EventStep::Skip,
    }
}

impl PlaybackControls {
    /// Plays one event (see [`event_step_spec`]); a resize also makes a page of the
    /// kept lines as long as the new screen. Playing pauses at markers when the
    /// settings ask it, stepping with `.` never does, and skipping with `]` always does.
    pub fn play_event(&mut self, data: &EventData, time_micros: u64, pause_at_markers: bool) -> (s: EventStep)
        ensures
            s == event_step_spec(*data, time_micros, pause_at_markers),
            *final(self) == match *data {
                EventData::Resize(_, rows) => PlaybackControls {
                    scrollback: Scrollback { scroll_size: rows as usize, ..old(self).scrollback },
                    ..*old(self)
                },
                _ => *old(self),
            },
    {
        match data {
            EventData::Output(_) => EventStep::Feed,
            EventData::Resize(cols, rows) => {
                self.scrollback.scroll_size = *rows as usize;
                EventStep::Resize(*cols, *rows)
            },
            EventData::Marker(_) => {
                if pause_at_markers {
                    EventStep::PauseAt(time_micros)
                } else {
                    EventStep::Skip
                }
            },
            _ => EventStep::Skip,
        }
    }
}

/// The target accounts (`k == 0`) or statuses of the listed recordings.
pub open spec fn recording_col(items: Seq<RecordingView>, k: int) -> Seq<Seq<char>> {
    items.map_values(|v: RecordingView| if k == 0 {
        v.target_secret@
    } else {
        v.status@
    })
}

/// The widths of the columns of the list of recordings: the target account and the
/// status as wide as their widest entries on a terminal (at least 6, the width of the
/// headers), the start and end times `datetime_len` wide.
pub open spec fn recording_widths_spec(items: Seq<RecordingView>, datetime_len: u16) -> Seq<u16> {
    let n = items.len() as int;
    seq![
        widest(recording_col(items, 0), n, 6) as u16,
        datetime_len,
        datetime_len,
        widest(recording_col(items, 1), n, 6) as u16,
    ]
}

/// The width of each column of the list of recordings (as `Constraint::Length` takes
/// it); `datetime_len` is the width the widgets give to a date and time.
pub fn recording_widths(items: &Vec<RecordingView>, datetime_len: u16) -> (w: Vec<u16>)
    ensures
        w@ == recording_widths_spec(items@, datetime_len),
{
    let mut c0: Vec<String> = Vec::new();
    let mut c1: Vec<String> = Vec::new();
    let mut i: usize = 0;
    while i < items.len()
        invariant
            i <= items.len(),
            c0@.len() == i && c1@.len() == i,
            strings_view(c0@) =~= recording_col(items@, 0).take(i as int),
            strings_view(c1@) =~= recording_col(items@, 1).take(i as int),
        decreases items.len() - i,
    {
        c0.push(items[i].target_secret.clone());
        c1.push(items[i].status.clone());
        i = i + 1;
    }
    assert(recording_col(items@, 0).take(items.len() as int) =~= recording_col(items@, 0));
    assert(recording_col(items@, 1).take(items.len() as int) =~= recording_col(items@, 1));
    let w0 = widest_of(&c0, 6);
    let w1 = widest_of(&c1, 6);
    vec![w0 as u16, datetime_len, datetime_len, w1 as u16]
}

/// Which scroll bars (sideways, up and down) the recording's screen needs in an area
/// of `area_w` by `area_h` cells: the screen of `term_w` by `term_h` cells is drawn
/// with a border, one more cell on each side, and a bar is needed on an axis where
/// that does not fit.
pub fn scroll_bars_needed(term_w: u16, term_h: u16, area_w: u16, area_h: u16) -> (bars: (bool, bool))
    requires
        term_w + 2 <= u16::MAX,
        term_h + 2 <= u16::MAX,
    ensures
        bars == (term_w + 2 > area_w, term_h + 2 > area_h),
{
    (term_w + 2 > area_w, term_h + 2 > area_h)
}

/// `x`, or `max` if it is larger.
pub open spec fn clamp_to(x: usize, max: usize) -> usize {
    if x > max {
        max
    } else {
        x
    }
}

impl PlaybackControls {
    /// Fits the scrolling to the screen as drawn: on each axis with a bar, the screen
    /// (border included) can be scrolled by as many cells as it is larger than the
    /// visible `visible_w` by `visible_h` cells, and the offset is kept within that;
    /// an axis without a bar keeps its offset and limit.
    pub fn fit_viewport(
        &mut self,
        term_w: u16,
        term_h: u16,
        visible_w: u16,
        visible_h: u16,
        horizontal_bar: bool,
        vertical_bar: bool,
    )
        requires
            term_w + 2 <= u16::MAX,
            term_h + 2 <= u16::MAX,
            horizontal_bar ==> visible_w <= term_w + 2,
            vertical_bar ==> visible_h <= term_h + 2,
        ensures
            final(self).max_horizontal_scroll_offset == if horizontal_bar {
                (term_w + 2 - visible_w) as usize
            } else {
                old(self).max_horizontal_scroll_offset
            },
            final(self).horizontal_scroll_offset == if horizontal_bar {
                clamp_to(old(self).horizontal_scroll_offset, (term_w + 2 - visible_w) as usize)
            } else {
                old(self).horizontal_scroll_offset
            },
            final(self).max_vertical_scroll_offset == if vertical_bar {
                (term_h + 2 - visible_h) as usize
            } else {
                old(self).max_vertical_scroll_offset
            },
            final(self).vertical_scroll_offset == if vertical_bar {
                clamp_to(old(self).vertical_scroll_offset, (term_h + 2 - visible_h) as usize)
            } else {
                old(self).vertical_scroll_offset
            },
            final(self).scrollback == old(self).scrollback,
            final(self).pause == old(self).pause,
    {
        if horizontal_bar {
            let max_h: usize = (term_w + 2 - visible_w) as usize;
            self.max_horizontal_scroll_offset = max_h;
            if self.horizontal_scroll_offset > max_h {
                self.horizontal_scroll_offset = max_h;
            }
        }
        if vertical_bar {
            let max_v: usize = (term_h + 2 - visible_h) as usize;
            self.max_vertical_scroll_offset = max_v;
            if self.vertical_scroll_offset > max_v {
                self.vertical_scroll_offset = max_v;
            }
        }
    }
}

/// Pausing (Space while playing) and resuming (Space while paused) gives back the
/// same controls.
pub proof fn law_pause_resume(c: PlaybackControls)
    requires
        !c.pause,
    ensures
        playing_step(c, Key::Char(' '), false).1 == PlaybackAction::Pause,
        paused_step(playing_step(c, Key::Char(' '), false).0, Key::Char(' '), false) == (c, PlaybackAction::Resume),
{
}

/// Within its range, scrolling one step on and one step back returns to the same
/// offset, and the offset stays within its range.
pub proof fn law_wrap_round_trip(x: usize, max: usize)
    requires
        x <= max,
        max < usize::MAX,
    ensures
        wrap_previous(wrap_next(x, max), max) == x,
        wrap_next(wrap_previous(x, max), max) == x,
        wrap_next(x, max) <= max,
        wrap_previous(x, max) <= max,
{
}

/// What the list of recordings asks after a key press.
#[derive(Clone, Copy, Debug, PartialEq, Eq, Structural)]
pub enum ListAction {
    Nothing,
    /// List the recordings again.
    Refresh,
    /// Hand the key to the open settings form.
    ToSettings,
    /// Play the selected recording.
    Play,
    /// Leave the player.
    Quit,
}

/// The list of recordings between key presses.
pub struct RecordingList {
    pub table: AdminTable,
    pub message: Option<Message>,
    /// Whether the playback settings are being edited.
    pub settings_open: bool,
}

/// The list as it matters to key presses.
pub struct RecordingListView {
    pub table: AdminTable,
    pub message: Option<ShownMessage>,
    pub settings_open: bool,
}

/// A key press on the list of `len` recordings: with a message shown, Enter dismisses
/// it and other keys do nothing; with the settings open, the key goes to them; else the
/// table keys move the cursor, `r` lists again, `s` opens the settings, `q` or Ctrl+C
/// leave, and Enter plays the selected recording.
pub open spec fn list_step(s: RecordingListView, key: Key, ctrl: bool, len: int) -> (RecordingListView, ListAction) {
    if s.message is Some {
        if key == Key::Enter {
            (RecordingListView { message: None, ..s }, ListAction::Nothing)
        } else {
            (s, ListAction::Nothing)
        }
    } else if s.settings_open {
        (s, ListAction::ToSettings)
    } else if table_move_spec(key, ctrl) is Some {
        (RecordingListView { table: moved(s.table, table_move_spec(key, ctrl)->0, len), ..s }, ListAction::Nothing)
    } else if key == Key::Char('r') {
        (s, ListAction::Refresh)
    } else if key == Key::Char('s') {
        (RecordingListView { settings_open: true, ..s }, ListAction::Nothing)
    } else if key == Key::Char('q') || (ctrl && key == Key::Char('c')) {
        (s, ListAction::Quit)
    } else if key == Key::Enter {
        (s, ListAction::Play)
    } else {
        (s, ListAction::Nothing)
    }
}

impl RecordingList {
    pub open spec fn view(&self) -> RecordingListView {
        RecordingListView { table: self.table, message: shown_opt(self.message), settings_open: self.settings_open }
    }

    /// Handles a key press on the list of `len` recordings. See [`list_step`].
    pub fn handle_key_event(&mut self, key: Key, ctrl: bool, len: usize) -> (a: ListAction)
        requires
            (old(self).message is None && !old(self).settings_open && table_move_spec(key, ctrl) is Some) ==> table_wf(
                old(self).table,
                len as int,
            ) && move_ok(old(self).table, table_move_spec(key, ctrl)->0, len as int),
        ensures
            (final(self).view(), a) == list_step(old(self).view(), key, ctrl, len as int),
    {
        if self.message.is_some() {
            if key == Key::Enter {
                self.message = None;
            }
            return ListAction::Nothing;
        }
        if self.settings_open {
            return ListAction::ToSettings;
        }
        match table_move(key, ctrl) {
            Some(m) => {
                self.table.apply_move(m, len);
                return ListAction::Nothing;
            },
            None => {},
        }
        if key == Key::Char('r') {
            ListAction::Refresh
        } else if key == Key::Char('s') {
            self.settings_open = true;
            ListAction::Nothing
        } else if key == Key::Char('q') || (ctrl && key == Key::Char('c')) {
            ListAction::Quit
        } else if key == Key::Enter {
            ListAction::Play
        } else {
            ListAction::Nothing
        }
    }
}

} // verus!
