use rustion::bind_editor::{target_len_calculator, BindAction, BindEditor};
use rustion::models::target::TargetInfo;
use rustion::models::target_secret::SecretInfo;
use rustion::table::FieldsToArray;
use rustion::tui::{DisplayMode, FocusedTable, Key};

fn target(id: &str, name: &str, host: &str) -> TargetInfo {
    TargetInfo { id: id.to_string(), name: name.to_string(), hostname: host.to_string(), port: 22 }
}

fn secret(id: &str, bound: bool) -> SecretInfo {
    SecretInfo { id: id.to_string(), name: format!("n-{}", id), user: "root".to_string(), is_bound: bound }
}

fn editor() -> BindEditor {
    let mut e = BindEditor::new(
        vec![target("t1", "web", "10.0.0.1"), target("t2", "db", "10.0.0.2")],
        vec![secret("s1", false), secret("s2", true)],
        "admin".to_string(),
    );
    e.target_table.size = (40, 9);
    e.secret_table.size = (40, 9);
    e
}

#[test]
fn bind_editor_moves_and_refreshes() {
    let mut e = editor();
    match e.handle_key_event(Key::Down, false) {
        BindAction::RefreshSecrets(id) => assert_eq!(id, "t2"),
        _ => panic!("expected a refresh"),
    }
    e.set_secrets(Ok(vec![secret("s3", true)]));
    assert_eq!(e.secrets.len(), 1);
    assert!(matches!(e.handle_key_event(Key::Char('l'), false), BindAction::Keep));
    assert_eq!(e.focused_table, FocusedTable::Right);
    // The secrets' table moves without a refresh.
    assert!(matches!(e.handle_key_event(Key::Down, false), BindAction::Keep));
    e.handle_key_event(Key::Char('+'), false);
    assert_eq!((e.target_table.row_height, e.secret_table.row_height), (3, 3));
    assert!(matches!(e.handle_key_event(Key::Tab, false), BindAction::Close));
}

#[test]
fn bind_editor_toggles() {
    let mut e = editor();
    e.handle_key_event(Key::Right, false);
    e.handle_key_event(Key::Char('j'), false);
    match e.handle_key_event(Key::Char(' '), false) {
        BindAction::Toggle { target_id, secret_id, bind, user_id } => {
            assert_eq!((target_id.as_str(), secret_id.as_str(), bind, user_id.as_str()), ("t1", "s2", false, "admin"));
        }
        _ => panic!("expected a toggle"),
    }
    e.toggle_done(Err("database is locked".to_string()));
    assert_eq!(e.save_error.as_deref(), Some("database is locked"));
    assert!(matches!(e.handle_key_event(Key::Char('q'), false), BindAction::Keep));
    e.handle_key_event(Key::Enter, false);
    assert!(e.save_error.is_none());
    e.set_secrets(Err("gone".to_string()));
    assert_eq!(e.save_error.as_deref(), Some("gone"));
}

#[test]
fn target_columns() {
    let data = vec![target("t1", "web-frontend", "10.0.0.1"), target("t2", "db", "host.example.org")];
    assert_eq!(target_len_calculator(&data), vec![12, 16, 5]);
    assert_eq!(target_len_calculator(&vec![]), vec![4, 8, 5]);
    assert_eq!(data[0].to_array(DisplayMode::Manage), vec!["web-frontend", "10.0.0.1", "22"]);
}
