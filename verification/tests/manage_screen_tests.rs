use rustion::console::{
    tab_content, AfterDelete, AfterStore, EditAction, ManageAction, ManageState, Popup, StoreResult, TabContent,
};
use rustion::roles::RoleType;
use rustion::manage::TableData;
use rustion::models::target_secret::Secret;
use rustion::tui::{Key, Message, SelectedTab};

fn secrets(n: usize) -> TableData {
    TableData::Secrets((0..n).map(|_| Secret::new("admin".to_string())).collect())
}

fn screen(n: usize) -> ManageState {
    let mut s = ManageState::new(n);
    s.table.size = (120, 11);
    s.selected_tab = SelectedTab::Secrets;
    s
}

fn lines(m: &Option<Message>) -> (bool, Vec<String>) {
    match m {
        Some(Message::Success(l)) => (true, l.clone()),
        Some(Message::Error(l)) => (false, l.clone()),
        _ => panic!("expected a message"),
    }
}

#[test]
fn screen_navigation() {
    let data = secrets(3);
    let mut s = screen(3);
    assert_eq!(s.handle_key_event(Key::Char('j'), false, &data), ManageAction::Nothing);
    assert_eq!(s.table.selected, Some(1));
    s.handle_key_event(Key::Up, false, &data);
    s.handle_key_event(Key::Up, false, &data);
    assert_eq!(s.table.selected, Some(2));
    assert_eq!(s.handle_key_event(Key::Right, false, &data), ManageAction::NextColumn);
    assert_eq!(s.handle_key_event(Key::Char('h'), false, &data), ManageAction::PreviousColumn);
    s.handle_key_event(Key::Tab, false, &data);
    assert_eq!(s.selected_tab, SelectedTab::Bind);
    s.handle_key_event(Key::BackTab, false, &data);
    assert_eq!(s.selected_tab, SelectedTab::Secrets);
    assert_eq!(s.handle_key_event(Key::Char('c'), true, &data), ManageAction::Quit);
    assert_eq!(s.handle_key_event(Key::Esc, false, &data), ManageAction::Quit);
}

#[test]
fn screen_delete_flow() {
    let data = secrets(2);
    let mut s = screen(2);
    s.handle_key_event(Key::Down, false, &data);
    assert_eq!(s.handle_key_event(Key::Char('d'), false, &data), ManageAction::Nothing);
    assert_eq!(s.popup, Popup::Delete(1));
    assert_eq!(s.handle_key_event(Key::Char('x'), false, &data), ManageAction::Nothing);
    assert_eq!(s.handle_key_event(Key::Char('y'), false, &data), ManageAction::Delete(1));
    assert_eq!(s.popup, Popup::Closed);
    assert_eq!(s.delete_done(true), AfterDelete::Reload);
    assert_eq!(lines(&s.message), (true, vec!["Secret deleted".to_string()]));
    // The message takes the keys until Enter.
    assert_eq!(s.handle_key_event(Key::Char('d'), false, &data), ManageAction::Nothing);
    assert_eq!(s.popup, Popup::Closed);
    s.handle_key_event(Key::Enter, false, &data);
    assert!(s.message.is_none());
    s.handle_key_event(Key::Char('d'), false, &data);
    assert_eq!(s.handle_key_event(Key::Char('N'), false, &data), ManageAction::CloseForm);
    // The list of another tab has no record to delete.
    s.selected_tab = SelectedTab::Users;
    assert_eq!(s.handle_key_event(Key::Char('d'), false, &data), ManageAction::CloseForm);
    assert_eq!(s.delete_done(false), AfterDelete::Keep);
    assert_eq!(lines(&s.message), (false, vec!["Internal error".to_string()]));
}

#[test]
fn screen_forms() {
    let data = secrets(1);
    let mut s = screen(1);
    assert_eq!(s.handle_key_event(Key::Char('a'), false, &data), ManageAction::OpenAdd);
    assert_eq!(s.popup, Popup::Add);
    assert_eq!(s.handle_key_event(Key::Char('q'), false, &data), ManageAction::ToForm);
    assert_eq!(s.edit_done(false), EditAction::Create);
    assert_eq!(s.store_done(StoreResult::Duplicate, ""), AfterStore::KeepEditor);
    assert_eq!(lines(&s.message), (false, vec!["Secret already exists".to_string()]));
    assert_eq!(s.popup, Popup::Add);
    s.handle_key_event(Key::Enter, false, &data);
    assert_eq!(s.store_done(StoreResult::Stored, ""), AfterStore::DropEditor);
    assert_eq!(lines(&s.message), (true, vec!["Secret added".to_string()]));
    assert_eq!(s.popup, Popup::Closed);
    s.handle_key_event(Key::Enter, false, &data);
    assert_eq!(s.handle_key_event(Key::Char('e'), false, &data), ManageAction::OpenEdit(0));
    assert_eq!(s.edit_done(false), EditAction::Update);
    assert_eq!(s.popup, Popup::Edit);
    s.store_done(StoreResult::Failed, "");
    assert_eq!(lines(&s.message), (false, vec!["Internal error".to_string()]));
    // Users: a generated password is shown once.
    let mut u = ManageState::new(0);
    u.popup = Popup::Edit;
    u.store_done(StoreResult::Stored, "Xy7!aaaaaaaa");
    assert_eq!(
        lines(&u.message),
        (true, vec!["User updated".to_string(), "New password: Xy7!aaaaaaaa".to_string()])
    );
    let mut u = ManageState::new(0);
    u.popup = Popup::Add;
    u.store_done(StoreResult::Duplicate, "");
    assert_eq!(lines(&u.message), (false, vec!["Username already exists".to_string()]));
    // A confirmed cancellation stores nothing and closes the form.
    assert_eq!(s.edit_done(true), EditAction::DropEditor);
    assert_eq!(s.popup, Popup::Closed);
    // Roles can only be granted to a listed user.
    let mut s = screen(1);
    assert_eq!(s.handle_key_event(Key::Char('r'), false, &data), ManageAction::CloseForm);
}

#[test]
fn table_row_records() {
    let data = secrets(2);
    assert!(data.get_secret(1).is_some());
    assert!(data.get_secret(2).is_none());
    assert!(data.get_target(0).is_none());
    assert!(data.get_user(0).is_none());
    assert!(data.get_permission(0).is_none());
    assert!(data.get_casbin_name(0).is_none());
    let mut u = rustion::models::user::User::new("admin".to_string());
    u.username = "alice".to_string();
    let users = TableData::Users(vec![rustion::models::user::UserWithRole { user: u, role: "ops".to_string() }]);
    assert_eq!(users.get_user(0).map(|u| u.username), Some("alice".to_string()));
}

#[test]
fn tab_contents() {
    assert_eq!(tab_content(SelectedTab::Users), TabContent::Records);
    assert_eq!(tab_content(SelectedTab::CasbinNames), TabContent::Records);
    assert_eq!(tab_content(SelectedTab::Bind), TabContent::Bindings);
    assert_eq!(tab_content(SelectedTab::TargetGroup), TabContent::Groups(RoleType::Object));
    assert_eq!(tab_content(SelectedTab::RoleHierarchy), TabContent::Groups(RoleType::Subject));
}
