use rustion::group_editor::{
    page_down_scroll, page_down_selection, page_up_selection, CasbinGroupEditor, GroupAction, GroupHelp, InsertResult,
    TreeMove,
};
use rustion::roles::{CasbinRule, ObjectGroup, RoleManage, RoleType};
use rustion::tui::{Key, Message};

fn group_rule(member: &str, grp: &str) -> CasbinRule {
    CasbinRule {
        id: format!("{}-{}", member, grp),
        ptype: "g2".to_string(),
        v0: member.to_string(),
        v1: grp.to_string(),
        v2: None,
        v3: String::new(),
        v4: String::new(),
        v5: String::new(),
        updated_by: "admin".to_string(),
        updated_at: 0,
    }
}

fn item(id: &str, name: &str, group: bool) -> ObjectGroup {
    ObjectGroup { id: id.to_string(), name: name.to_string(), is_group: group }
}

// Targets: `all` holds `prod`, which holds `venus`.
fn roles() -> RoleManage {
    RoleManage::new(&[], &[group_rule("prod", "all"), group_rule("venus", "prod")], &[])
}

fn editor() -> CasbinGroupEditor {
    let items = vec![
        item("all", "All", true),
        item("prod", "Production", true),
        item("venus", "venus.example", false),
        item("mars", "mars.example", false),
    ];
    let mut e = CasbinGroupEditor::new(RoleType::Object, "admin".to_string(), items, false);
    e.selector_table.size = (80, 9);
    e
}

fn error_lines(m: &Option<Message>) -> Vec<String> {
    match m {
        Some(Message::Error(l)) => l.clone(),
        _ => panic!("expected an error message"),
    }
}

fn path(p: &[&str]) -> Vec<String> {
    p.iter().map(|s| s.to_string()).collect()
}

#[test]
fn group_editor_tree_keys() {
    let r = roles();
    let mut e = editor();
    let none = path(&[]);
    assert!(matches!(e.handle_key_event(Key::Char('j'), false, &none, &r).action, GroupAction::Tree(TreeMove::Down)));
    assert!(matches!(e.handle_key_event(Key::Home, false, &none, &r).action, GroupAction::Tree(TreeMove::First)));
    assert!(matches!(e.handle_key_event(Key::Char('f'), false, &none, &r).action, GroupAction::Tree(TreeMove::PageDown)));
    assert!(e.handle_key_event(Key::BackTab, false, &none, &r).close);
    // Adding needs a selected group.
    e.handle_key_event(Key::Char('a'), false, &none, &r);
    assert_eq!(error_lines(&e.message), vec!["Please select one group.".to_string()]);
    assert!(!e.handle_key_event(Key::Tab, false, &none, &r).close);
    e.handle_key_event(Key::Enter, false, &none, &r);
    assert!(e.message.is_none());
    // Deleting needs a member, not a group.
    e.handle_key_event(Key::Char('d'), false, &path(&["prod"]), &r);
    assert_eq!(error_lines(&e.message), vec!["Please select one item in group: Production".to_string()]);
    e.handle_key_event(Key::Enter, false, &none, &r);
    e.handle_key_event(Key::Char('d'), false, &path(&["nowhere"]), &r);
    assert_eq!(error_lines(&e.message), vec!["Please select one item in group: Unknown".to_string()]);
}

#[test]
fn group_editor_delete() {
    let r = roles();
    let mut e = editor();
    let p = path(&["prod", "venus"]);
    e.handle_key_event(Key::Char('d'), false, &p, &r);
    assert!(e.is_deleting);
    assert!(matches!(e.handle_key_event(Key::Char('x'), false, &p, &r).action, GroupAction::Keep));
    assert!(e.is_deleting);
    match e.handle_key_event(Key::Char('y'), false, &p, &r).action {
        GroupAction::Delete { ptype, member, group } => {
            assert_eq!((ptype.as_str(), member.as_str(), group.as_str()), ("g2", "venus", "prod"));
        }
        _ => panic!("expected a deletion"),
    }
    assert!(!e.is_deleting);
    e.delete_done(true);
    assert!(matches!(&e.message, Some(Message::Success(l)) if l == &vec!["Deleted successfully".to_string()]));
    e.handle_key_event(Key::Enter, false, &p, &r);
    e.handle_key_event(Key::Char('d'), false, &p, &r);
    e.handle_key_event(Key::Char('N'), false, &p, &r);
    assert!(!e.is_deleting);
    e.delete_done(false);
    assert_eq!(error_lines(&e.message), vec!["Internal error".to_string()]);
}

#[test]
fn group_editor_insert() {
    let r = roles();
    let mut e = editor();
    let p = path(&["prod"]);
    e.handle_key_event(Key::Char('a'), false, &p, &r);
    assert!(e.is_editing);
    assert_eq!(e.help, GroupHelp::Table);
    // The first row is `all`, which already holds `prod`: a cycle.
    e.handle_key_event(Key::Enter, false, &p, &r);
    assert!(!e.is_editing);
    assert_eq!(
        error_lines(&e.message),
        vec!["Cannot add All: would create a cycle in group hierarchy".to_string()]
    );
    e.handle_key_event(Key::Enter, false, &p, &r);
    // A group cannot join itself.
    e.handle_key_event(Key::Char('a'), false, &p, &r);
    e.handle_key_event(Key::Down, false, &p, &r);
    e.handle_key_event(Key::Char(' '), false, &p, &r);
    assert_eq!(error_lines(&e.message), vec!["Cannot add a group to itself".to_string()]);
    e.handle_key_event(Key::Enter, false, &p, &r);
    // `mars` can be added.
    e.handle_key_event(Key::Char('a'), false, &p, &r);
    e.handle_key_event(Key::Down, false, &p, &r);
    e.handle_key_event(Key::Down, false, &p, &r);
    match e.handle_key_event(Key::Enter, false, &p, &r).action {
        GroupAction::Create(rule) => {
            assert_eq!((rule.ptype.as_str(), rule.v0.as_str(), rule.v1.as_str()), ("g2", "mars", "prod"));
            assert_eq!(rule.updated_by, "admin");
            assert!(rule.v2.is_none());
        }
        _ => panic!("expected an addition"),
    }
    e.insert_done(InsertResult::Duplicate);
    assert_eq!(
        error_lines(&e.message),
        vec!["Target: mars.example has already existed in Production".to_string()]
    );
    e.handle_key_event(Key::Enter, false, &p, &r);
    e.handle_key_event(Key::Char('a'), false, &p, &r);
    assert!(matches!(e.handle_key_event(Key::Enter, false, &p, &r).action, GroupAction::Create(_)));
    e.insert_done(InsertResult::Created);
    assert!(matches!(&e.message, Some(Message::Success(l))
        if l == &vec!["Target: mars.example added in Production".to_string()]));
}

#[test]
fn group_editor_subjects_keep_groups() {
    let items = vec![item("u1", "alice", false), item("g1", "dev", true)];
    let e = CasbinGroupEditor::new(RoleType::Subject, "admin".to_string(), items, false);
    assert_eq!(e.selector_items.len(), 1);
    assert_eq!(e.selector_items[0].name, "dev");
    let e = CasbinGroupEditor::new(RoleType::Action, "admin".to_string(), vec![], true);
    assert_eq!(error_lines(&e.message), vec!["Internal error".to_string()]);
}

#[test]
fn group_tree_paging() {
    // 12 rows of window: pages of 10.
    assert_eq!(page_down_scroll(12, 100, 0), 10);
    assert_eq!(page_down_scroll(12, 25, 0), 10);
    assert_eq!(page_down_scroll(12, 15, 0), 5);
    assert_eq!(page_down_scroll(12, 25, 20), 0);
    assert_eq!(page_down_selection(Some(3), 10), 13);
    assert_eq!(page_down_selection(None, 10), 0);
    assert_eq!(page_up_selection(Some(13), 12), 3);
    assert_eq!(page_up_selection(Some(4), 12), 0);
    assert_eq!(page_up_selection(None, 12), usize::MAX);
}
