use rustion::editor::keep_lines;
use rustion::permission::single_line_leaves;
use rustion::tui::{multi_line_action, Key, MultiLineAction};
use rustion::database::Log;
use rustion::database::{generate_path, InternalUuids, SessionRecording, ACT_EXEC, ACT_SHELL, OBJ_LOGIN};
use rustion::manage::TableData;
use rustion::models::user::UserWithRole;
use rustion::roles::{CasbinName, CasbinRule, PermissionPolicy};
use rustion::editor::{
    FormEditor, FormEvent, SecretEditor, TargetEditor, UserEditor, F_AUTHORIZED_KEYS, F_DESCRIPTION, F_EMAIL,
    F_GENERATE_PASSWORD, F_IS_ACTIVE, F_NAME, F_PASSWORD, F_PORT, F_PRIVATE_KEY, F_SECRET_NAME,
    F_USER, F_USERNAME,
};
use rustion::models::target_secret::ValidateError as SecretValidateError;
use rustion::errors::{AdminError, AppError, Request};
use rustion::models::target::{Target, ValidateError};
use rustion::table::{secret_len_calculator, AdminTable, FieldsToArray};
use rustion::models::target_secret::{Secret, SecretInfo, TargetSecret};
use rustion::models::user::User;
use rustion::tui::{DisplayMode, FocusedTable, InputField, Message, SelectedTab, Status};

const KEY1: &str = "ssh-ed25519 AAAAC3NzaC1lZDI1NTE5AAAAIAEBAQEBAQEBAQEBAQEBAQEBAQEBAQEBAQEBAQEBAQEB";

#[test]
fn tabs_cycle() {
    let mut t = SelectedTab::Users;
    let mut seen = vec![];
    for _ in 0..9 {
        seen.push(t);
        t = t.next();
    }
    assert_eq!(t, SelectedTab::Users);
    for i in 0..9 {
        for j in (i + 1)..9 {
            assert_ne!(seen[i], seen[j]);
        }
    }
    assert_eq!(SelectedTab::Users.previous(), SelectedTab::ActionGroup);
    assert_eq!(SelectedTab::ActionGroup.next(), SelectedTab::Users);
    assert_eq!(SelectedTab::Bind.next().previous(), SelectedTab::Bind);
}

#[test]
fn fields_and_tables_cycle() {
    assert_eq!(InputField::User.next(), InputField::Target);
    assert_eq!(InputField::ExtendPolicy.next(), InputField::User);
    assert_eq!(InputField::User.previous(), InputField::ExtendPolicy);
    assert_eq!(InputField::Action.previous().next(), InputField::Action);
    assert_eq!(FocusedTable::Left.next(), FocusedTable::Right);
    assert_eq!(FocusedTable::Left.next().next(), FocusedTable::Left);
    assert_eq!(Status::Terminate(3), Status::Terminate(3));
    assert_ne!(DisplayMode::Full, DisplayMode::Manage);
}

#[test]
fn message_lines() {
    let m = Message::Warning(vec!["a".to_string(), "b".to_string()]);
    assert_eq!(m.len(), 2);
    assert_eq!(m.lines(), &["a".to_string(), "b".to_string()]);
    let m = Message::Success(vec![]);
    assert_eq!(m.len(), 0);
    assert!(m.lines().is_empty());
}

fn table(rows: u16) -> AdminTable {
    let mut t = AdminTable::new(100);
    t.size = (80, rows);
    t
}

#[test]
fn table_paging() {
    let t = AdminTable::new(10);
    assert_eq!(t.selected, Some(0));
    assert_eq!(t.scroll_content_length, 18);
    assert_eq!(t.row_height, 2);
    // 11 lines: one header, five rows of two lines.
    let mut t = table(11);
    t.next_page(100);
    assert_eq!((t.offset, t.selected, t.scroll_position), (5, Some(5), 10));
    t.next_page(100);
    assert_eq!((t.offset, t.selected), (10, Some(10)));
    t.previous_page();
    assert_eq!((t.offset, t.selected), (5, Some(5)));
    t.previous_page();
    t.previous_page();
    assert_eq!((t.offset, t.selected, t.scroll_position), (0, Some(0), 0));
    // Near the end the selection jumps to the new first row.
    let mut t = table(11);
    t.offset = 93;
    t.selected = Some(97);
    t.next_page(100);
    assert_eq!((t.offset, t.selected), (98, Some(98)));
    // Past the end nothing moves.
    let mut t = table(11);
    t.offset = 97;
    t.selected = Some(99);
    t.next_page(100);
    assert_eq!((t.offset, t.selected), (97, Some(99)));
}

#[test]
fn table_rows_wrap() {
    let mut t = table(11);
    t.selected = Some(9);
    t.next_row(10);
    assert_eq!(t.selected, Some(0));
    t.previous_row(10);
    assert_eq!(t.selected, Some(9));
    assert_eq!(t.scroll_position, 18);
    t.previous_row(10);
    t.next_row(10);
    assert_eq!(t.selected, Some(9));
    t.selected = None;
    t.next_row(10);
    assert_eq!(t.selected, Some(0));
}

#[test]
fn table_zoom_limits() {
    let mut t = table(11);
    for _ in 0..30 {
        t.zoom_in();
    }
    assert_eq!(t.row_height, 20);
    for _ in 0..30 {
        t.zoom_out();
    }
    assert_eq!(t.row_height, 1);
}

#[test]
fn row_texts() {
    let mut u = User::new("admin".to_string());
    u.id = "u1".to_string();
    u.username = "alice".to_string();
    u.updated_at = -5;
    let row = u.to_array(DisplayMode::Full);
    assert_eq!(row, vec!["u1", "alice", "", "", "", "true", "true", "admin", "-5"]);
    let row = u.with_password_hash(Some("h".to_string())).to_array(DisplayMode::Manage);
    assert_eq!(row, vec!["alice", "", "********", "", "true", "true"]);

    let mut s = Secret::new("admin".to_string());
    s.name = "n".to_string();
    s.user = "root".to_string();
    s.updated_at = 1700000000000;
    let s = s.with_public_key(Some(KEY1.to_string()));
    let row = s.to_array(DisplayMode::Manage);
    assert_eq!(row, vec!["n", "root", "", "", "ssh-ed25519 AAAAC3Nz...AQEBAQEBAQEBAQEB", "true"]);
    assert_eq!(s.to_array(DisplayMode::Full)[8], "1700000000000");

    let mut b = TargetSecret::new("t".to_string(), "s".to_string(), "admin".to_string());
    b.id = "b".to_string();
    b.updated_at = 7;
    assert_eq!(b.to_array(DisplayMode::Full), vec!["b", "t", "s", "true", "admin", "7"]);
}

#[test]
fn secret_column_widths() {
    let info = |name: &str, user: &str| SecretInfo {
        id: "i".to_string(),
        name: name.to_string(),
        user: user.to_string(),
        is_bound: false,
    };
    assert_eq!(secret_len_calculator(&vec![]), vec![4, 4, 4]);
    let data = vec![info("db", "postgres"), info("日本語", "x")];
    // Wide characters take two columns each.
    assert_eq!(secret_len_calculator(&data), vec![4, 6, 8]);
}

#[test]
fn app_error_texts() {
    let e = AdminError::DuplicateTargetUser { target: "venus".to_string(), user: "root".to_string() };
    assert_eq!(e.message(), "Target 'venus' already has a bound secret with user 'root'");
    let a: AppError = e.into();
    assert_eq!(a.message(), "Target 'venus' already has a bound secret with user 'root'");
    assert_eq!(AppError::NoTargetAvailable.message(), "No target available for connection");
    assert_eq!(AppError::ChannelRecordExists.message(), "Channel record already exists");
    assert_eq!(AppError::ChannelNotifyExists.message(), "Channel notify already exists");
}

#[test]
fn request_texts() {
    assert_eq!(Request::Shell.describe(), "shell");
    assert_eq!(Request::Exec(b"ls -l").describe(), "exec: ls -l");
    assert_eq!(Request::Exec(&[0x66, 0xff, 0x6f]).describe(), "exec: f\u{fffd}o");
    assert_eq!(
        Request::OpenDirectTcpip(("db", 5432, "10.0.0.9", 40000)).describe(),
        "open_direct_tcpip: to_connect: db:5432 originator: 10.0.0.9:40000"
    );
}

fn editor_for(port: u16) -> TargetEditor {
    let mut t = Target::new("admin".to_string());
    t.name = "web".to_string();
    t.hostname = "10.0.0.1".to_string();
    t.port = port;
    t.server_public_key = KEY1.to_string();
    TargetEditor::new(t)
}

#[test]
fn target_form_round_trip() {
    let mut e = editor_for(2222);
    assert_eq!(e.form.get_text(F_PORT), "2222");
    assert_eq!(e.form.get_text(F_DESCRIPTION), "");
    assert!(e.form.get_checkbox(F_IS_ACTIVE));
    assert_eq!(e.save_target(), Ok(()));
    assert_eq!(e.target.port, 2222);
    assert!(e.target.description.is_none());
}

#[test]
fn target_form_edits() {
    let mut e = editor_for(22);
    e.form.set_text(F_NAME, "  web-2  ".to_string());
    e.form.set_text(F_PORT, " +8022 ".to_string());
    e.form.set_text(F_DESCRIPTION, "  front end ".to_string());
    e.form.set_checkbox(F_IS_ACTIVE, false);
    assert_eq!(e.save_target(), Ok(()));
    assert_eq!(e.target.name, "web-2");
    assert_eq!(e.target.port, 8022);
    assert_eq!(e.target.description.as_deref(), Some("front end"));
    assert!(!e.target.is_active);

    let mut e = editor_for(22);
    e.form.set_text(F_PORT, "0".to_string());
    assert_eq!(e.save_target(), Err(ValidateError::PortInvalid));
    e.form.set_text(F_PORT, "65536".to_string());
    assert_eq!(e.save_target(), Err(ValidateError::PortInvalid));
    e.form.set_text(F_PORT, "ssh".to_string());
    assert_eq!(e.save_target(), Err(ValidateError::PortNotNumber));
    e.form.set_text(F_PORT, "99999999999999999999".to_string());
    assert_eq!(e.save_target(), Err(ValidateError::PortNotNumber));
    assert_eq!(e.target.port, 22);
    e.form.set_text(F_PORT, "22".to_string());
    e.form.set_text(F_NAME, " ".to_string());
    assert_eq!(e.save_target(), Err(ValidateError::NameEmpty));
    let _ = FormEditor::new(vec![]);
}

#[test]
fn management_tables() {

    let users = TableData::Users(vec![]);
    assert_eq!(users.header(), vec!["username", "email", "password_hash", "authorized_keys", "force_init_pass", "is_active", "role"]);
    assert_eq!(users.len(), 0);
    assert_eq!(users.constraint_len_calculator(), vec![8, 5, 13, 15, 15, 9, 4]);

    let mut u = User::new("admin".to_string());
    u.username = "administrator".to_string();
    let users = TableData::Users(vec![UserWithRole { user: u.with_email("a@b.cd".to_string()), role: "superuser".to_string() }]);
    assert_eq!(users.len(), 1);
    assert_eq!(users.constraint_len_calculator(), vec![13, 6, 13, 15, 15, 9, 9]);

    let mut t = Target::new("admin".to_string());
    t.name = "web".to_string();
    t.hostname = "h".to_string();
    t.server_public_key = KEY1.to_string();
    let targets = TableData::Targets(vec![t.with_description("front".to_string())]);
    assert_eq!(targets.header()[3], "server_public_key");
    // The shortened key is 12 + 8 + 3 + 16 bytes long.
    assert_eq!(targets.constraint_len_calculator(), vec![4, 8, 5, 39, 11, 9]);

    let names = TableData::CasbinNames(vec![CasbinName::new("g2".to_string(), "production".to_string(), true, "admin".to_string())]);
    assert_eq!(names.header(), vec!["Type", "name", "is_active"]);
    assert_eq!(names.constraint_len_calculator(), vec![6, 10, 9]);

    let rule = CasbinRule::new("p".to_string(), "a".to_string(), "b".to_string(), Some("c".to_string()), "10.0.0.0/8,08:00 +0000,18:00 +0000,".to_string(), String::new(), String::new(), "admin".to_string());
    let perms = TableData::Permissions(vec![PermissionPolicy {
        user_role: "dev".to_string(),
        target_group: "prod".to_string(),
        action_group: "login".to_string(),
        rule,
    }]);
    assert_eq!(perms.constraint_len_calculator(), vec![9, 12, 12, 35]);
    let secrets = TableData::Secrets(vec![Secret::new("admin".to_string())]);
    assert_eq!(secrets.constraint_len_calculator(), vec![4, 4, 8, 11, 10, 9]);
}

#[test]
fn more_row_texts() {
    let mut t = Target::new("admin".to_string());
    t.name = "web".to_string();
    t.hostname = "h".to_string();
    t.server_public_key = KEY1.to_string();
    t.port = 2222;
    assert_eq!(t.print_server_key(), "ssh-ed25519 AAAAC3Nz...AQEBAQEBAQEBAQEB");
    assert_eq!(
        t.to_array(DisplayMode::Manage),
        vec!["web", "h", "2222", "ssh-ed25519 AAAAC3Nz...AQEBAQEBAQEBAQEB", "", "true"]
    );
    let info = SecretInfo { id: "i".to_string(), name: "n".to_string(), user: "u".to_string(), is_bound: true };
    assert_eq!(info.to_array(DisplayMode::Manage), vec!["[X]", "n", "u"]);
    let log = Log {
        connection_id: "c".to_string(),
        log_type: "target".to_string(),
        user_id: "u".to_string(),
        detail: "d".to_string(),
        created_at: 12,
    };
    assert_eq!(log.to_array(DisplayMode::Full), vec!["c", "target", "u", "d", "12"]);
    let mut r = CasbinRule::new("g1".to_string(), "a".to_string(), "b".to_string(), None, String::new(), String::new(), String::new(), "admin".to_string());
    r.id = "r".to_string();
    r.updated_at = 3;
    assert_eq!(r.to_array(DisplayMode::Full), vec!["r", "g1", "a", "b", "", "", "", "", "admin", "3"]);
    assert!(uuid::Uuid::parse_str(&CasbinRule::new("p".to_string(), String::new(), String::new(), None, String::new(), String::new(), String::new(), String::new()).id).is_ok());
}

#[test]
fn reserved_actions_and_recordings() {
    let ids = InternalUuids {
        obj_login: "ol".to_string(),
        obj_admin: "oa".to_string(),
        act_shell: "s".to_string(),
        act_pty: "p".to_string(),
        act_exec: "e".to_string(),
        act_login: "l".to_string(),
        act_direct_tcpip: "d".to_string(),
    };
    assert_eq!(ids.action_uuid(ACT_SHELL), Some("s".to_string()));
    assert_eq!(ids.action_uuid(ACT_EXEC), Some("e".to_string()));
    assert_eq!(ids.action_uuid("__internal_action_open_direct_tcpip"), Some("d".to_string()));
    assert_eq!(ids.action_uuid(OBJ_LOGIN), None);
    assert_eq!(ids.action_uuid("shell"), None);
    assert_eq!(generate_path("abc"), "abc.cast");
    let r = SessionRecording::new("u".to_string(), "t".to_string(), "s".to_string(), "c".to_string());
    assert_eq!(r.file_path, format!("{}.cast", r.id));
    assert_eq!(r.status, "active");
    assert!(r.ended_at.is_none());
}

#[test]
fn user_form_saves() {
    let mut u = User::new("admin".to_string());
    u.username = "alice".to_string();
    let mut e = UserEditor::new(u.with_authorized_keys(vec![KEY1.to_string()]));
    assert_eq!(e.form.get_text(F_USERNAME), "alice");
    assert_eq!(e.form.get_multiline(F_AUTHORIZED_KEYS), vec![KEY1.to_string()]);
    assert!(!e.form.get_checkbox(F_GENERATE_PASSWORD));
    e.form.set_text(F_USERNAME, "  bob ".to_string());
    e.form.set_text(F_EMAIL, "   ".to_string());
    e.form.set_checkbox(F_GENERATE_PASSWORD, true);
    e.form.set_lines(F_AUTHORIZED_KEYS, vec![format!("  {}  ", KEY1), "".to_string(), "   ".to_string()]);
    assert!(e.save_user().is_ok());
    assert_eq!(e.user.username, "bob");
    assert!(e.user.email.is_none());
    assert!(e.generate_password);
    assert_eq!(e.user.get_authorized_keys(), Some(vec![KEY1.to_string()]));
    assert_eq!(e.form.get_multiline(F_AUTHORIZED_KEYS), vec![KEY1.to_string()]);
    e.form.set_lines(F_AUTHORIZED_KEYS, vec![" ".to_string()]);
    e.form.set_text(F_EMAIL, "not-an-email".to_string());
    assert!(matches!(e.save_user(), Err(rustion::models::user::ValidateError::EmailInvalid)));
    assert!(e.user.authorized_keys.is_none());
    assert!(e.form.get_multiline(F_AUTHORIZED_KEYS).is_empty());
}

#[test]
fn secret_form_saves() {
    let s = Secret::new("admin".to_string()).with_password(Some("pw".to_string()));
    let mut e = SecretEditor::new(s);
    assert_eq!(e.form.get_text(F_PASSWORD), "********");
    assert_eq!(e.form.get_multiline(F_PRIVATE_KEY), vec!["".to_string()]);
    e.form.set_text(F_SECRET_NAME, " db ".to_string());
    e.form.set_text(F_USER, "root".to_string());
    // The placeholders are left alone: nothing changes.
    assert!(e.save_secret().is_ok());
    assert_eq!(e.secret.password.as_deref(), Some("pw"));
    assert!(!e.password_updated && !e.private_key_updated);
    assert_eq!(e.secret.name, "db");
    // A new password, and a private key over two lines that does not parse.
    e.form.set_text(F_PASSWORD, " new-pw ".to_string());
    e.form.set_lines(F_PRIVATE_KEY, vec!["-----BEGIN".to_string(), "junk".to_string()]);
    assert_eq!(e.save_secret(), Err(SecretValidateError::PrivateKeyInvalid));
    assert_eq!(e.secret.password.as_deref(), Some("new-pw"));
    assert_eq!(e.secret.private_key.as_deref(), Some("-----BEGIN\njunk"));
    assert!(e.password_updated && e.private_key_updated);
    // Emptying the key removes the key pair.
    let mut e = SecretEditor::new(
        Secret::new("admin".to_string())
            .with_private_key(Some("k".to_string()))
            .with_public_key(Some(KEY1.to_string())),
    );
    e.form.set_text(F_SECRET_NAME, "n".to_string());
    e.form.set_text(F_USER, "u".to_string());
    e.form.set_lines(F_PRIVATE_KEY, vec!["  ".to_string()]);
    assert!(e.save_secret().is_ok());
    assert!(e.secret.private_key.is_none());
    assert!(e.secret.public_key.is_none());
}

#[test]
fn deletable_rows() {
    let t = TableData::Secrets(vec![Secret::new("a".to_string())]);
    assert!(t.could_delete(SelectedTab::Secrets, 0));
    assert!(!t.could_delete(SelectedTab::Secrets, 1));
    assert!(!t.could_delete(SelectedTab::Users, 0));
}

#[test]
fn player_scrollback() {
    use_scrollback();
}

fn use_scrollback() {
    let mut s = rustion::tui::Scrollback { scroll_position: 0, scroll_size: 400 };
    s.increase_scroll_position();
    s.increase_scroll_position();
    assert_eq!(s.scroll_position, 800);
    s.increase_scroll_position();
    assert_eq!(s.scroll_position, rustion::tui::SCROLLBACK_LEN);
    s.decrease_scroll_position();
    assert_eq!(s.scroll_position, 600);
    s.decrease_scroll_position();
    s.decrease_scroll_position();
    assert_eq!(s.scroll_position, 0);
}

#[test]
fn form_events() {
    // Target: a refused port shows its message and keeps the editor open.
    let mut e = editor_for(22);
    assert!(!e.handle_form_event(FormEvent::NoAction));
    e.form.set_text(F_PORT, "ssh".to_string());
    assert!(!e.handle_form_event(FormEvent::Save));
    assert_eq!(e.form.save_error, Some(vec!["port is not a number".to_string()]));
    e.form.set_text(F_PORT, "2200".to_string());
    assert!(e.handle_form_event(FormEvent::Save));
    assert_eq!(e.target.port, 2200);
    assert!(!e.form.show_cancel_confirmation);
    assert!(e.handle_form_event(FormEvent::Cancel));
    assert!(e.form.show_cancel_confirmation);

    // User: keys that do not parse are reported by line number.
    let mut u = User::new("admin".to_string());
    u.username = "alice".to_string();
    let mut e = UserEditor::new(u);
    e.form.set_lines(
        F_AUTHORIZED_KEYS,
        vec!["junk".to_string(), KEY1.to_string(), "".to_string(), "more junk".to_string()],
    );
    assert!(!e.handle_form_event(FormEvent::Save));
    assert_eq!(
        e.form.save_error,
        Some(vec!["Invalid authorized keys".to_string(), "Line number: 1, 3".to_string()])
    );
    e.form.set_text(F_USERNAME, " ".to_string());
    assert!(!e.handle_form_event(FormEvent::Save));
    assert_eq!(e.form.save_error, Some(vec!["Username cannot be empty".to_string()]));

    // Secret: a missing account name.
    let mut e = SecretEditor::new(Secret::new("admin".to_string()));
    e.form.set_text(F_SECRET_NAME, "db".to_string());
    assert!(!e.handle_form_event(FormEvent::Save));
    assert_eq!(e.form.save_error, Some(vec!["user cannot be empty".to_string()]));
    e.form.set_text(F_USER, "root".to_string());
    assert!(e.handle_form_event(FormEvent::Save));
}

#[test]
fn text_field_keys() {
    assert_eq!(multi_line_action(false, Key::Char('q')), (MultiLineAction::Leave, false));
    assert_eq!(multi_line_action(false, Key::Char('o')), (MultiLineAction::OpenLine, true));
    assert_eq!(
        multi_line_action(false, Key::Char('i')),
        (MultiLineAction::StartEditing { at_head: true }, true)
    );
    assert_eq!(
        multi_line_action(false, Key::Enter),
        (MultiLineAction::StartEditing { at_head: false }, true)
    );
    assert_eq!(multi_line_action(false, Key::Char('k')), (MultiLineAction::MoveUp, false));
    assert_eq!(multi_line_action(false, Key::Char('x')), (MultiLineAction::Ignore, false));
    assert_eq!(multi_line_action(true, Key::Char('q')), (MultiLineAction::Type(Key::Char('q')), true));
    assert_eq!(multi_line_action(true, Key::Esc), (MultiLineAction::Commit, false));
    assert_eq!(
        keep_lines(&vec!["  a ".to_string(), " ".to_string(), "b".to_string()]),
        vec!["a".to_string(), "b".to_string()]
    );
    assert!(single_line_leaves(Key::Tab));
    assert!(!single_line_leaves(Key::Char('x')));
}
