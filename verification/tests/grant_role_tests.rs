use rustion::grant_role::{table_len_calculator, GrantAction, GrantRoleEditor};
use rustion::roles::Role;
use rustion::table::FieldsToArray;
use rustion::tui::{DisplayMode, Key};

fn role(rid: &str, name: &str, rule: Option<&str>) -> Role {
    Role { rid: rid.to_string(), role: name.to_string(), is_bound: rule.is_some(), rule_id: rule.map(|s| s.to_string()) }
}

fn editor() -> GrantRoleEditor {
    let mut e = GrantRoleEditor::new(
        vec![role("r1", "developers", None), role("r2", "operators", Some("rule-2"))],
        "alice".to_string(),
        "admin".to_string(),
        None,
    );
    e.role_table.size = (40, 9);
    e
}

#[test]
fn grant_and_revoke() {
    let mut e = editor();
    match e.handle_key_event(Key::Char(' '), false) {
        GrantAction::Grant(rule) => {
            assert_eq!((rule.ptype.as_str(), rule.v0.as_str(), rule.v1.as_str()), ("g1", "r1", "alice"));
            assert_eq!(rule.updated_by, "admin");
        }
        _ => panic!("expected a grant"),
    }
    e.grant_done(Ok(()));
    assert!(e.items[0].is_bound);
    e.handle_key_event(Key::Down, false);
    match e.handle_key_event(Key::Enter, false) {
        GrantAction::Revoke(id) => assert_eq!(id, "rule-2"),
        _ => panic!("expected a revocation"),
    }
    e.grant_done(Err("database is locked".to_string()));
    assert!(e.items[1].is_bound);
    assert_eq!(e.save_error.as_deref(), Some("database is locked"));
    assert!(matches!(e.handle_key_event(Key::Esc, false), GrantAction::Keep));
    e.handle_key_event(Key::Enter, false);
    assert!(matches!(e.handle_key_event(Key::Esc, false), GrantAction::Close));
}

#[test]
fn revoke_needs_rule_id() {
    let mut bad = role("r3", "auditors", None);
    bad.is_bound = true;
    let mut e = GrantRoleEditor::new(vec![bad], "bob".to_string(), "admin".to_string(), None);
    assert!(matches!(e.handle_key_event(Key::Enter, false), GrantAction::Keep));
    assert_eq!(e.save_error.as_deref(), Some("Rule ID is none"));
}

#[test]
fn role_columns() {
    let items = vec![role("r1", "developers", None), role("r2", "ops", Some("x"))];
    assert_eq!(table_len_calculator(&items), vec![4, 10]);
    assert_eq!(items[1].to_array(DisplayMode::Manage), vec!["[X]", "ops"]);
    assert_eq!(items[0].to_array(DisplayMode::Manage), vec!["[ ]", "developers"]);
}
