use rustion::playback::{recording_widths, scroll_bars_needed, EventStep, ListAction, PlaybackAction, PlaybackControls, RecordingList};
use rustion::asciinema::asciicast::EventData;
use rustion::database::RecordingView;
use rustion::table::AdminTable;
use rustion::tui::Message;
use rustion::tui::Key;

#[test]
fn playback_paused_keys() {
    let mut c = PlaybackControls::new(24, 2, 3);
    c.pause = true;
    assert_eq!(c.paused_key(Key::Char('.'), false), PlaybackAction::Step);
    assert_eq!(c.paused_key(Key::Char(']'), false), PlaybackAction::SkipToMarker);
    assert_eq!(c.paused_key(Key::Left, false), PlaybackAction::Redraw);
    assert_eq!(c.horizontal_scroll_offset, 2);
    c.paused_key(Key::Char('l'), false);
    assert_eq!(c.horizontal_scroll_offset, 0);
    c.paused_key(Key::PageUp, false);
    c.paused_key(Key::Char('b'), true);
    assert_eq!(c.scrollback.scroll_position, 48);
    for _ in 0..50 {
        c.paused_key(Key::PageUp, false);
    }
    assert_eq!(c.scrollback.scroll_position, 1000);
    c.paused_key(Key::Char('f'), true);
    assert_eq!(c.scrollback.scroll_position, 976);
    assert_eq!(c.paused_key(Key::Char('x'), false), PlaybackAction::Ignore);
    assert_eq!(c.paused_key(Key::Char(' '), false), PlaybackAction::Resume);
    assert!(!c.pause);
    c.start_playing();
    assert_eq!(c.scrollback.scroll_position, 0);
}

#[test]
fn playback_playing_keys() {
    let mut c = PlaybackControls::new(24, 2, 3);
    assert_eq!(c.playing_key(Key::Char('k'), false), PlaybackAction::Redraw);
    assert_eq!(c.vertical_scroll_offset, 3);
    c.playing_key(Key::Down, false);
    assert_eq!(c.vertical_scroll_offset, 0);
    // Paging only works while paused.
    assert_eq!(c.playing_key(Key::PageUp, false), PlaybackAction::Ignore);
    assert_eq!(c.scrollback.scroll_position, 0);
    assert_eq!(c.playing_key(Key::Char(' '), false), PlaybackAction::Pause);
    assert!(c.pause);
    assert_eq!(c.playing_key(Key::Char('c'), true), PlaybackAction::Quit);
    c.resize(40);
    assert_eq!(c.scrollback.scroll_size, 40);
}

#[test]
fn recording_list_keys() {
    let mut table = AdminTable::new(3);
    table.size = (80, 9);
    let mut l = RecordingList { table, message: None, settings_open: false };
    assert_eq!(l.handle_key_event(Key::Down, false, 3), ListAction::Nothing);
    assert_eq!(l.table.selected, Some(1));
    assert_eq!(l.handle_key_event(Key::Enter, false, 3), ListAction::Play);
    assert_eq!(l.handle_key_event(Key::Char('r'), false, 3), ListAction::Refresh);
    assert_eq!(l.handle_key_event(Key::Char('s'), false, 3), ListAction::Nothing);
    assert!(l.settings_open);
    assert_eq!(l.handle_key_event(Key::Char('q'), false, 3), ListAction::ToSettings);
    l.settings_open = false;
    l.message = Some(Message::Error(vec!["Internal error".to_string()]));
    assert_eq!(l.handle_key_event(Key::Char('q'), false, 3), ListAction::Nothing);
    l.handle_key_event(Key::Enter, false, 3);
    assert!(l.message.is_none());
    assert_eq!(l.handle_key_event(Key::Char('c'), true, 3), ListAction::Quit);
}

#[test]
fn screen_fits_or_scrolls() {
    assert_eq!(scroll_bars_needed(80, 24, 82, 26), (false, false));
    assert_eq!(scroll_bars_needed(80, 24, 81, 40), (true, false));
    assert_eq!(scroll_bars_needed(80, 24, 200, 25), (false, true));

    let mut c = PlaybackControls::new(24, 0, 0);
    c.horizontal_scroll_offset = 10;
    c.vertical_scroll_offset = 15;
    c.fit_viewport(100, 30, 50, 20, true, true);
    assert_eq!(c.max_horizontal_scroll_offset, 52);
    assert_eq!(c.horizontal_scroll_offset, 10);
    assert_eq!(c.max_vertical_scroll_offset, 12);
    assert_eq!(c.vertical_scroll_offset, 12);

    c.fit_viewport(100, 30, 101, 40, false, false);
    assert_eq!(c.max_horizontal_scroll_offset, 52);
    assert_eq!(c.vertical_scroll_offset, 12);
}

#[test]
fn recording_list_columns() {
    let view = |target: &str, status: &str| RecordingView {
        id: "r".to_string(),
        user: "u".to_string(),
        target_secret: target.to_string(),
        started_at: 0,
        ended_at: None,
        status: status.to_string(),
    };
    assert_eq!(recording_widths(&vec![], 19), vec![6, 19, 19, 6]);
    assert_eq!(
        recording_widths(&vec![view("root@db-server-01", "active"), view("app@web", "finished")], 19),
        vec![17, 19, 19, 8]
    );
}

#[test]
fn playing_events() {
    let mut c = PlaybackControls::new(24, 0, 0);
    assert_eq!(c.play_event(&EventData::Output("hi".to_string()), 5, true), EventStep::Feed);
    assert_eq!(c.play_event(&EventData::Resize(100, 40), 6, false), EventStep::Resize(100, 40));
    assert_eq!(c.scrollback.scroll_size, 40);
    assert_eq!(c.play_event(&EventData::Marker("m".to_string()), 7_000, true), EventStep::PauseAt(7_000));
    assert_eq!(c.play_event(&EventData::Marker("m".to_string()), 7_000, false), EventStep::Skip);
    assert_eq!(c.play_event(&EventData::Input("x".to_string()), 8, true), EventStep::Skip);
    assert_eq!(c.scrollback.scroll_size, 40);
    assert!(!c.pause);
}
