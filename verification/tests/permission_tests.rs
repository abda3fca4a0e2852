use rustion::permission::{KeyOutcome, PermissionEditor, PermissionError, PermissionHelp, TextAction};
use rustion::roles::{CasbinRule, ObjectGroup, PermissionPolicy};
use rustion::tui::{InputField, Key};

fn names(prefix: &str, n: usize, group: bool) -> Vec<ObjectGroup> {
    (0..n)
        .map(|i| ObjectGroup { id: format!("{}-id-{}", prefix, i), name: format!("{}{}", prefix, i), is_group: group })
        .collect()
}

fn policy() -> PermissionPolicy {
    PermissionPolicy {
        user_role: String::new(),
        target_group: String::new(),
        action_group: String::new(),
        rule: CasbinRule {
            id: "rule".to_string(),
            ptype: "p".to_string(),
            v0: String::new(),
            v1: String::new(),
            v2: None,
            v3: String::new(),
            v4: String::new(),
            v5: String::new(),
            updated_by: "admin".to_string(),
            updated_at: 0,
        },
    }
}

fn editor() -> PermissionEditor {
    let mut e = PermissionEditor::new(policy(), names("user", 3, false), names("web", 2, true), names("act", 4, false), None);
    // The tables have been drawn: 9 rows of screen, rows two lines tall.
    e.user_table.size = (80, 9);
    e.target_table.size = (80, 9);
    e.action_table.size = (80, 9);
    e
}

const STAY: KeyOutcome = KeyOutcome { close: false, text: TextAction::Keep };

#[test]
fn permission_focus_moves() {
    let mut e = editor();
    assert_eq!(e.focused_field, InputField::User);
    assert_eq!(e.handle_key_event(Key::Tab, false, ""), STAY);
    assert_eq!(e.focused_field, InputField::Target);
    assert_eq!(e.scroll_offset, 1);
    for _ in 0..2 {
        e.handle_key_event(Key::Char('j'), false, "");
    }
    assert_eq!(e.focused_field, InputField::ExtendPolicy);
    assert_eq!(e.help, PermissionHelp::Common);
    e.handle_key_event(Key::Down, false, "");
    e.handle_key_event(Key::Down, false, "");
    e.handle_key_event(Key::Down, false, "");
    // Six steps wrap the scroll offset back to 0.
    assert_eq!(e.scroll_offset, 0);
    assert_eq!(e.focused_field, InputField::Action);
    e.handle_key_event(Key::BackTab, false, "");
    assert_eq!(e.scroll_offset, 5);
    assert_eq!(e.focused_field, InputField::Target);
    assert_eq!(e.help, PermissionHelp::Editor);
}

#[test]
fn permission_picks_rows() {
    let mut e = editor();
    assert_eq!(e.handle_key_event(Key::Char('e'), false, ""), STAY);
    assert!(e.editing_mode);
    assert_eq!(e.help, PermissionHelp::Table);
    e.handle_key_event(Key::Down, false, "");
    e.handle_key_event(Key::Down, false, "");
    assert_eq!(e.user_table.selected, Some(2));
    e.handle_key_event(Key::Down, false, "");
    assert_eq!(e.user_table.selected, Some(0));
    e.handle_key_event(Key::Up, false, "");
    e.handle_key_event(Key::Char('+'), false, "");
    assert_eq!(e.user_table.row_height, 3);
    e.handle_key_event(Key::Enter, false, "");
    assert!(!e.editing_mode);
    assert_eq!(e.perm.user_role, "user2");
    assert_eq!(e.perm.rule.v0, "user-id-2");

    e.handle_key_event(Key::Tab, false, "");
    e.handle_key_event(Key::Tab, false, "");
    e.handle_key_event(Key::Enter, false, "");
    // A page of four rows: the selection lands just past the last of the four actions.
    e.handle_key_event(Key::Char('f'), true, "");
    assert_eq!(e.action_table.selected, Some(4));
    assert_eq!(e.action_table.offset, 4);
    e.handle_key_event(Key::Char('k'), false, "");
    assert_eq!(e.action_table.selected, Some(3));
    e.handle_key_event(Key::Char(' '), false, "");
    assert_eq!(e.perm.action_group, "act3");
    assert_eq!(e.perm.rule.v2.as_deref(), Some("act-id-3"));
    // Leaving the table without a pick keeps the permission.
    e.handle_key_event(Key::BackTab, false, "");
    e.handle_key_event(Key::Char('a'), false, "");
    e.handle_key_event(Key::Down, false, "");
    assert_eq!(e.handle_key_event(Key::Esc, false, ""), STAY);
    assert!(!e.editing_mode);
    assert_eq!(e.perm.target_group, "");
}

#[test]
fn permission_policy_text() {
    let mut e = editor();
    e.handle_key_event(Key::BackTab, false, "");
    assert_eq!(e.focused_field, InputField::ExtendPolicy);
    assert_eq!(
        e.handle_key_event(Key::Char('i'), false, ""),
        KeyOutcome { close: false, text: TextAction::StartEditing { at_head: true } }
    );
    assert_eq!(
        e.handle_key_event(Key::Char('x'), false, ""),
        KeyOutcome { close: false, text: TextAction::Input(Key::Char('x')) }
    );
    assert_eq!(
        e.handle_key_event(Key::Enter, false, ""),
        KeyOutcome { close: false, text: TextAction::StopEditing }
    );
    assert_eq!(e.handle_key_event(Key::Char('d'), false, ""), KeyOutcome { close: false, text: TextAction::Clear });
    // A bad policy is refused and the error is shown until Enter.
    assert_eq!(e.handle_key_event(Key::Char('s'), true, "  not-a-network  "), STAY);
    assert_eq!(e.perm.rule.v3, "not-a-network");
    assert!(matches!(e.save_error, Some(PermissionError::Policy(_))));
    assert_eq!(e.handle_key_event(Key::Tab, false, ""), STAY);
    assert_eq!(e.focused_field, InputField::ExtendPolicy);
    e.handle_key_event(Key::Enter, false, "");
    assert!(e.save_error.is_none());
    // A good one closes the editor.
    let done = e.handle_key_event(Key::Char('s'), true, " 10.0.0.0/8,09:00 +0800,18:00 +0800 ");
    assert!(done.close);
    assert_eq!(e.perm.rule.v3, "10.0.0.0/8,09:00 +0800,18:00 +0800");
}

#[test]
fn permission_leave_dialog() {
    let mut e = editor();
    e.handle_key_event(Key::Char('q'), false, "");
    assert!(e.show_cancel_confirmation);
    e.handle_key_event(Key::Char('x'), false, "");
    assert!(e.show_cancel_confirmation);
    e.handle_key_event(Key::Char('N'), false, "");
    assert!(!e.show_cancel_confirmation);
    e.handle_key_event(Key::Char('c'), true, "");
    assert!(e.show_cancel_confirmation);
    assert!(e.handle_key_event(Key::Char('y'), false, "").close);

    let e = PermissionEditor::new(policy(), vec![], vec![], vec![], Some("database is locked".to_string()));
    assert!(matches!(e.save_error, Some(PermissionError::Load(ref m)) if m == "database is locked"));
}
