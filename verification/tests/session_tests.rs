use rustion::asciinema::asciicast::{limit_idle_time, limit_idle_time_checked, limit_idle_times, Event, EventData};
use rustion::asciinema::session::{self, InputAction, SessionState, TermInfo};
use rustion::asciinema::tty::{FixedSizeTty, NullTty, Tty, TtySize};
use rustion::models::target_secret::TargetSecretName;
use rustion::target_selector::{entries_for_target, PromptReply, TargetSelection, TerminalStatus};
use std::time::Duration;

fn entry(target_id: &str, target: &str, user: &str) -> TargetSecretName {
    TargetSecretName {
        pid: "p".to_string(),
        id: format!("{}-{}", target, user),
        target_id: target_id.to_string(),
        target_name: target.to_string(),
        secret_id: format!("s-{}", user),
        secret_user: user.to_string(),
    }
}

fn line(s: &str) -> PromptReply {
    PromptReply::Line(s.to_string())
}

#[test]
fn selection_with_one_binding_connects_at_once() {
    let mut s = TargetSelection::new(vec![entry("t1", "venus", "root")]).ok().unwrap();
    assert!(s.advance().is_none());
    assert_eq!(s.status, TerminalStatus::Connect);
    assert_eq!(s.selected, Some(0));
    assert_eq!(s.selected_target_name, "venus");
}

#[test]
fn selection_asks_for_target_then_account() {
    let allowed = vec![
        entry("t1", "venus", "root"),
        entry("t1", "venus", "deploy"),
        entry("t2", "mars", "root"),
        entry("t1", "venus", "root"),
    ];
    let mut s = TargetSelection::new(allowed).ok().unwrap();
    let choices = s.advance().unwrap();
    assert_eq!(choices, vec!["venus", "mars"]);
    assert_eq!(s.answer(line("")), None);
    assert_eq!(s.answer(PromptReply::Interrupt), None);
    assert_eq!(s.answer(line("saturn")), Some("Server: saturn doesn't exist".to_string()));
    assert_eq!(s.status, TerminalStatus::SelectTarget);
    assert_eq!(s.answer(line("venus")), None);
    assert_eq!(s.status, TerminalStatus::SelectUser);
    let users = s.advance().unwrap();
    assert_eq!(users, vec!["root", "deploy"]);
    assert_eq!(s.answer(line("admin")), Some("System user: admin doesn't exist".to_string()));
    // Ctrl-D goes back to the targets, since there are two.
    assert_eq!(s.answer(PromptReply::EndOfInput), None);
    assert_eq!(s.status, TerminalStatus::SelectTarget);
    s.advance();
    s.answer(line("mars"));
    assert!(s.advance().is_none());
    assert_eq!(s.status, TerminalStatus::Connect);
    let k = s.selected.unwrap();
    assert_eq!(s.allowed[k].target_name, "mars");
    assert_eq!(s.allowed[k].secret_user, "root");
}

#[test]
fn selection_quit_and_single_target() {
    let allowed = vec![entry("t1", "venus", "root"), entry("t1", "venus", "deploy")];
    let mut s = TargetSelection::new(allowed).ok().unwrap();
    // One target: straight to the accounts.
    let users = s.advance().unwrap();
    assert_eq!(users.len(), 2);
    assert_eq!(s.status, TerminalStatus::SelectUser);
    // Ctrl-D with a single target ends the selection.
    s.answer(PromptReply::EndOfInput);
    assert_eq!(s.status, TerminalStatus::Terminate);

    let mut s = TargetSelection::new(vec![entry("t1", "venus", "root"), entry("t2", "mars", "x")]).ok().unwrap();
    s.advance();
    s.answer(line("exit"));
    assert_eq!(s.status, TerminalStatus::Terminate);
    assert!(s.advance().is_none());
    let mut s = TargetSelection::new(vec![entry("t1", "venus", "root"), entry("t2", "mars", "x")]).ok().unwrap();
    s.advance();
    s.answer(PromptReply::EndOfInput);
    assert_eq!(s.status, TerminalStatus::Terminate);
    let mut s = TargetSelection::new(vec![entry("t1", "venus", "root"), entry("t2", "mars", "x")]).ok().unwrap();
    s.advance();
    s.answer(PromptReply::Failed);
    assert_eq!(s.status, TerminalStatus::SelectTarget);
}

fn ev(ms: u64, text: &str) -> Event {
    Event::output(Duration::from_millis(ms), text.to_string())
}

#[test]
fn idle_time_is_cut() {
    let events = vec![ev(500, "a"), ev(1000, "b"), ev(5000, "c"), ev(5200, "d"), ev(20000, "e")];
    let out = limit_idle_time(events, Duration::from_secs(2));
    let times: Vec<u128> = out.iter().map(|e| e.time.as_millis()).collect();
    assert_eq!(times, vec![500, 1000, 3000, 3200, 5200]);
    assert!(matches!(out[2].data, EventData::Output(ref t) if t == "c"));
    // A first event after a long start is moved to the limit.
    let out = limit_idle_time(vec![ev(9000, "x")], Duration::from_secs(1));
    assert_eq!(out[0].time, Duration::from_secs(1));
    assert!(limit_idle_time(vec![], Duration::from_secs(1)).is_empty());
}

#[test]
fn event_constructors() {
    let t = Duration::from_micros(1500);
    assert!(matches!(Event::input(t, "ls".to_string()).data, EventData::Input(ref s) if s == "ls"));
    assert!(matches!(Event::resize(t, (120, 40)).data, EventData::Resize(120, 40)));
    assert!(matches!(Event::marker(t, "m".to_string()).data, EventData::Marker(_)));
    let e = Event::exit(t, 3);
    assert!(matches!(e.data, EventData::Exit(3)));
    assert_eq!(e.time, t);
    let recorded: Event = session::Event::Resize(2_000_000, TtySize(100, 30)).into();
    assert_eq!(recorded.time, Duration::from_secs(2));
    assert!(matches!(recorded.data, EventData::Resize(100, 30)));
    let recorded: Event = session::Event::Output(5, "o".to_string()).into();
    assert_eq!(recorded.time, Duration::from_micros(5));
}

#[test]
fn tty_sizes() {
    assert_eq!(TtySize::default(), TtySize(80, 24));
    assert_eq!(TtySize::from((100u16, 50u16)), TtySize(100, 50));
    assert_eq!(TtySize::from((70000usize, 30usize)), TtySize(70000u32 as u16, 30));
    let pair: (u16, u16) = TtySize(3, 4).into();
    assert_eq!(pair, (3, 4));
    assert_eq!(NullTty.get_size(), (80, 24));
    assert_eq!(FixedSizeTty::new(NullTty, Some(132), None).get_size(), (132, 24));
    assert_eq!(FixedSizeTty::new(NullTty, None, Some(50)).get_size(), (80, 50));
    assert_eq!(FixedSizeTty::new(NullTty, None, None).get_size(), (80, 24));
    let info = TermInfo { type_: Some("xterm".to_string()), version: None, size: TtySize(1, 2) };
    assert_eq!(info.size, TtySize(1, 2));
}

#[test]
fn session_clock_and_input() {
    let mut s = SessionState::new(true, TtySize(80, 24));
    assert_eq!(s.elapsed_time(1_000), 1_000);
    assert_eq!(s.output_time(1_000), Some(1_000));
    assert_eq!(s.handle_input(b"ls\r", 1_500), InputAction::Forward(Some(1_500)));
    assert!(s.handle_resize(TtySize(80, 24), 2_000).is_none());
    match s.handle_resize(TtySize(100, 30), 2_000) {
        Some(session::Event::Resize(2_000, TtySize(100, 30))) => {}
        _ => panic!("resize expected"),
    }
    assert_eq!(s.tty_size, TtySize(100, 30));
    assert!(matches!(s.handle_exit(0, 3_000), session::Event::Exit(3_000, 0)));
    assert!(matches!(s.handle_marker("m".to_string(), 3_100), session::Event::Marker(3_100, _)));

    // Input is not recorded when input recording is off.
    let mut quiet = SessionState::new(false, TtySize(80, 24));
    assert_eq!(quiet.handle_input(b"x", 10), InputAction::Forward(None));
}

#[test]
fn session_pause_is_left_out() {
    let mut s = SessionState::new(true, TtySize(80, 24));
    s.pause_key = Some(vec![0x10]);
    s.add_marker_key = Some(vec![0x0d]);
    assert_eq!(s.handle_input(&[0x10], 1_000), InputAction::Consumed);
    assert_eq!(s.pause_time, Some(1_000));
    // While paused the clock stands still and nothing is recorded.
    assert_eq!(s.elapsed_time(9_000), 1_000);
    assert_eq!(s.output_time(9_000), None);
    assert_eq!(s.handle_input(b"a", 9_000), InputAction::Forward(None));
    assert_eq!(s.handle_input(&[0x10], 10_000), InputAction::Consumed);
    assert_eq!(s.pause_time, None);
    assert_eq!(s.time_offset, 9_000);
    assert_eq!(s.elapsed_time(10_500), 1_500);
    assert_eq!(s.handle_input(&[0x0d], 11_000), InputAction::AddMarker(2_000));
    // With a prefix key, the other keys only act after it.
    let mut p = SessionState::new(true, TtySize(80, 24));
    p.prefix_key = Some(vec![0x01]);
    p.pause_key = Some(vec![0x10]);
    assert_eq!(p.handle_input(&[0x10], 5), InputAction::Forward(Some(5)));
    assert_eq!(p.handle_input(&[0x01], 6), InputAction::Consumed);
    assert!(p.prefix_mode);
    assert_eq!(p.handle_input(&[0x10], 7), InputAction::Consumed);
    assert_eq!(p.pause_time, Some(7));
}

#[test]
fn target_named_in_login() {
    let allowed = vec![entry("t1", "venus", "root"), entry("t2", "mars", "root"), entry("t1", "venus", "app")];
    let kept = entries_for_target(allowed, &"venus".to_string()).unwrap();
    let users: Vec<&str> = kept.iter().map(|e| e.secret_user.as_str()).collect();
    assert_eq!(users, vec!["root", "app"]);
    let none = entries_for_target(vec![entry("t1", "venus", "root")], &"pluto".to_string());
    assert!(none.is_none());
}

#[test]
fn selection_needs_a_target_and_takes_first_entry() {
    assert!(matches!(
        TargetSelection::new(vec![]),
        Err(rustion::errors::AppError::NoTargetAvailable)
    ));
    // Two bindings of the same account on the same target: the first is taken.
    let allowed = vec![entry("t1", "venus", "root"), entry("t1", "venus", "root"), entry("t2", "mars", "x")];
    let mut s = TargetSelection::new(allowed).ok().unwrap();
    s.advance();
    s.answer(line("venus"));
    assert!(s.advance().is_none());
    assert_eq!(s.selected, Some(0));
}

#[test]
fn idle_limit_on_plain_times() {
    let s = 1_000_000_000u64;
    assert_eq!(limit_idle_times(&vec![s, 2 * s, 10 * s, 11 * s], 2 * s), vec![s, 2 * s, 4 * s, 5 * s]);
    assert_eq!(limit_idle_times(&vec![5 * s, 5 * s], s), vec![s, s]);
    assert_eq!(limit_idle_times(&vec![], s), Vec::<u64>::new());
}

#[test]
fn idle_limit_checked_refuses_time_going_back() {
    let s = Duration::from_secs;
    let out = |t: u64, x: &str| Event::output(s(t), x.to_string());
    let v = limit_idle_time_checked(vec![out(1, "a"), out(10, "b")], s(2)).unwrap();
    assert_eq!(v.iter().map(|e| e.time).collect::<Vec<_>>(), vec![s(1), s(3)]);
    assert!(limit_idle_time_checked(vec![out(5, "a"), out(4, "b")], s(2)).is_none());
    assert!(limit_idle_time_checked(vec![out(1, "a")], Duration::MAX).is_none());
}
