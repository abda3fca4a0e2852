//! The management screen of the administration console: which tab is shown, which
//! dialog is open, the cursor of the record table, the message shown, and what each
//! key press asks. Forms, group editors and the store are run by the console; they
//! report back how a save or a deletion went.
use vstd::prelude::*;
use crate::manage::{data_len, deletable_tab, lists_tab, TableData};
use crate::table::{move_ok, moved, table_move, table_move_spec, table_wf, AdminTable};
use crate::text::{chars_to_string, push_all, str_chars};
use crate::roles::RoleType;
use crate::tui::{next_tab, previous_tab, shown, shown_opt, Key, Message, MessageKind, SelectedTab, ShownMessage};

verus! {

broadcast use vstd::string::group_string_axioms;

/// The dialog open over the table.
#[derive(Clone, Copy, Debug, PartialEq, Eq, Structural)]
pub enum Popup {
    /// No dialog.
    Closed,
    /// The form for a new record.
    Add,
    /// The form for an existing record.
    Edit,
    /// The question whether to delete the record at this row.
    Delete(usize),
}

/// What the console is asked to do after a key press.
#[derive(Clone, Copy, Debug, PartialEq, Eq, Structural)]
pub enum ManageAction {
    Nothing,
    /// Leave the console.
    Quit,
    NextColumn,
    PreviousColumn,
    /// Open the form for a new record of the selected tab.
    OpenAdd,
    /// Open the form for the record at this row.
    OpenEdit(usize),
    /// Open the roles of the user at this row.
    OpenGrantRole(usize),
    /// Close the form or editor that was open.
    CloseForm,
    /// Hand the key to the open form.
    ToForm,
    /// Delete the record at this row, then report with [`ManageState::delete_done`].
    Delete(usize),
}

/// How a save of a form went in the store.
#[derive(Clone, Copy, Debug, PartialEq, Eq, Structural)]
pub enum StoreResult {
    Stored,
    /// A record with the same name was there already.
    Duplicate,
    Failed,
}

/// What the console does with the store once the open editor is done with a key.
#[derive(Clone, Copy, Debug, PartialEq, Eq, Structural)]
pub enum EditAction {
    /// Create the edited record, once, then report with [`ManageState::store_done`].
    Create,
    /// Update the edited record, once, then report with [`ManageState::store_done`].
    Update,
    /// Store nothing: drop the editor and read the records again.
    DropEditor,
}

/// What follows the report of a save.
#[derive(Clone, Copy, Debug, PartialEq, Eq, Structural)]
pub enum AfterStore {
    /// Drop the editor and read the records again.
    DropEditor,
    /// Keep the editor open under the error.
    KeepEditor,
}

/// What follows the report of a deletion.
#[derive(Clone, Copy, Debug, PartialEq, Eq, Structural)]
pub enum AfterDelete {
    /// Read the records again.
    Reload,
    /// Keep the records as they were.
    Keep,
}

/// What a tab shows, to be read again when the tab is refreshed.
#[derive(Clone, Copy, Debug, PartialEq, Eq, Structural)]
pub enum TabContent {
    /// A list of records in the table.
    Records,
    /// The binding editor, over the targets and the secrets of the first target.
    Bindings,
    /// The group editor of a hierarchy.
    Groups(RoleType),
}

/// What each tab shows: the users', targets', secrets', permissions' and group names'
/// tabs list records; the binding tab edits bindings; the three hierarchy tabs edit
/// the subjects', objects' and actions' groups.
pub open spec fn tab_content_spec(tab: SelectedTab) -> TabContent {
    match tab {
        SelectedTab::Bind => TabContent::Bindings,
        SelectedTab::RoleHierarchy => TabContent::Groups(RoleType::Subject),
        SelectedTab::TargetGroup => TabContent::Groups(RoleType::Object),
        SelectedTab::ActionGroup => TabContent::Groups(RoleType::Action),
        _ => TabContent::Records,
    }
}

/// What a tab shows. See [`tab_content_spec`].
pub fn tab_content(tab: SelectedTab) -> (r: TabContent)
    ensures
        r == tab_content_spec(tab),
        r == TabContent::Records <==> deletable_tab(tab),
{
    match tab {
        SelectedTab::Bind => TabContent::Bindings,
        SelectedTab::RoleHierarchy => TabContent::Groups(RoleType::Subject),
        SelectedTab::TargetGroup => TabContent::Groups(RoleType::Object),
        SelectedTab::ActionGroup => TabContent::Groups(RoleType::Action),
        _ => TabContent::Records,
    }
}

/// The screen's state between key presses.
pub struct ManageState {
    pub selected_tab: SelectedTab,
    pub popup: Popup,
    pub table: AdminTable,
    pub message: Option<Message>,
}

/// The screen's state as it matters to key presses.
pub struct ManageView {
    pub selected_tab: SelectedTab,
    pub popup: Popup,
    pub table: AdminTable,
    pub message: Option<ShownMessage>,
}

/// The row the table has selected.
pub open spec fn selected_row(t: AdminTable) -> int {
    match t.selected {
        Some(i) => i as int,
        None => 0,
    }
}

/// Whether the row holds a record of the tab.
pub open spec fn has_record(data: TableData, tab: SelectedTab, idx: int) -> bool {
    lists_tab(data, tab) && 0 <= idx < data_len(data)
}

/// A key press on the screen in state `s` showing `data`:
/// - With a message shown, Enter dismisses it; other keys do nothing.
/// - With no dialog: the table keys move the table's cursor; Tab and Shift+Tab change
///   the tab; `q`, Esc and Ctrl+C leave; the arrows right and left (or `l`, `h`) move
///   between columns; `d` asks whether to delete the selected record (when there is
///   one, else it closes any form); `a` opens the form for a new record; `e` the form
///   of the selected record, and `r` the roles of the selected user (when there is
///   one, else nothing opens).
/// - With a form open, the key goes to the form.
/// - With the deletion question open, `y` deletes and `n` closes it.
pub open spec fn manage_step(s: ManageView, key: Key, ctrl: bool, data: TableData) -> (ManageView, ManageAction) {
    let nothing = ManageAction::Nothing;
    let idx = selected_row(s.table);
    if s.message is Some {
        if key == Key::Enter {
            (ManageView { message: None, ..s }, nothing)
        } else {
            (s, nothing)
        }
    } else {
        match s.popup {
            Popup::Closed => if table_move_spec(key, ctrl) is Some {
                (ManageView { table: moved(s.table, table_move_spec(key, ctrl)->0, data_len(data) as int), ..s }, nothing)
            } else if key == Key::Tab {
                (ManageView { selected_tab: next_tab(s.selected_tab), ..s }, nothing)
            } else if key == Key::BackTab {
                (ManageView { selected_tab: previous_tab(s.selected_tab), ..s }, nothing)
            } else if key == Key::Char('q') || key == Key::Esc || (ctrl && key == Key::Char('c')) {
                (s, ManageAction::Quit)
            } else if key == Key::Char('l') || key == Key::Right {
                (s, ManageAction::NextColumn)
            } else if key == Key::Char('h') || key == Key::Left {
                (s, ManageAction::PreviousColumn)
            } else if key == Key::Char('d') && !ctrl {
                if has_record(data, s.selected_tab, idx) {
                    (ManageView { popup: Popup::Delete(idx as usize), ..s }, nothing)
                } else {
                    (ManageView { popup: Popup::Closed, ..s }, ManageAction::CloseForm)
                }
            } else if key == Key::Char('a') {
                (ManageView { popup: Popup::Add, ..s }, ManageAction::OpenAdd)
            } else if key == Key::Char('e') {
                if has_record(data, s.selected_tab, idx) {
                    (ManageView { popup: Popup::Edit, ..s }, ManageAction::OpenEdit(idx as usize))
                } else {
                    (ManageView { popup: Popup::Closed, ..s }, ManageAction::CloseForm)
                }
            } else if key == Key::Char('r') {
                if has_record(data, SelectedTab::Users, idx) {
                    (ManageView { popup: Popup::Edit, ..s }, ManageAction::OpenGrantRole(idx as usize))
                } else {
                    (ManageView { popup: Popup::Closed, ..s }, ManageAction::CloseForm)
                }
            } else {
                (s, nothing)
            },
            Popup::Add | Popup::Edit => (s, ManageAction::ToForm),
            Popup::Delete(i) => if key == Key::Char('y') || key == Key::Char('Y') {
                (ManageView { popup: Popup::Closed, ..s }, ManageAction::Delete(i))
            } else if key == Key::Char('n') || key == Key::Char('N') {
                (ManageView { popup: Popup::Closed, ..s }, ManageAction::CloseForm)
            } else {
                (s, nothing)
            },
        }
    }
}

/// Whether a key press can be handled: a table move needs the table to fit the list
/// and the move to be possible (see [`move_ok`]), and the keys that open or delete a
/// record need a tab whose records are listed.
pub open spec fn manage_key_ok(s: ManageView, key: Key, ctrl: bool, data: TableData) -> bool {
    (s.message is None && s.popup == Popup::Closed) ==> {
        &&& (table_move_spec(key, ctrl) matches Some(m) ==> table_wf(s.table, data_len(data) as int) && move_ok(
            s.table,
            m,
            data_len(data) as int,
        ))
        &&& ((key == Key::Char('d') && !ctrl) || key == Key::Char('a') || key == Key::Char('e')) ==> deletable_tab(
            s.selected_tab,
        )
    }
}

/// How a kind of record is called in messages.
pub open spec fn record_kind(tab: SelectedTab) -> Seq<char> {
    match tab {
        SelectedTab::Users => "User"@,
        SelectedTab::Targets => "Target"@,
        SelectedTab::Secrets => "Secret"@,
        SelectedTab::Permissions => "Permission"@,
        _ => "Group"@,
    }
}

/// The message shown when the store already holds a record with the same name.
pub open spec fn duplicate_text(tab: SelectedTab) -> Seq<char> {
    match tab {
        SelectedTab::Users => "Username already exists"@,
        _ => record_kind(tab) + " already exists"@,
    }
}

/// The message after a save: on success the kind of record and what was done (with
/// the new password, when one was generated); else why it failed.
pub open spec fn store_shown(tab: SelectedTab, added: bool, result: StoreResult, password: Seq<char>) -> ShownMessage {
    match result {
        StoreResult::Stored => ShownMessage {
            kind: MessageKind::Success,
            lines: {
                let first = record_kind(tab) + if added {
                    " added"@
                } else {
                    " updated"@
                };
                if tab == SelectedTab::Users && password.len() > 0 {
                    seq![first, "New password: "@ + password]
                } else {
                    seq![first]
                }
            },
        },
        StoreResult::Duplicate => ShownMessage { kind: MessageKind::Error, lines: seq![duplicate_text(tab)] },
        StoreResult::Failed => ShownMessage { kind: MessageKind::Error, lines: seq!["Internal error"@] },
    }
}

fn kind_text(tab: SelectedTab) -> (s: String)
    ensures
        s@ == record_kind(tab),
{
    match tab {
        SelectedTab::Users => "User".to_string(),
        SelectedTab::Targets => "Target".to_string(),
        SelectedTab::Secrets => "Secret".to_string(),
        SelectedTab::Permissions => "Permission".to_string(),
        _ => "Group".to_string(),
    }
}

fn concat(a: &str, b: &str) -> (s: String)
    ensures
        s@ == a@ + b@,
{
    let mut v = str_chars(a);
    push_all(&mut v, &str_chars(b));
    chars_to_string(&v)
}

impl ManageState {
    pub open spec fn view(&self) -> ManageView {
        ManageView {
            selected_tab: self.selected_tab,
            popup: self.popup,
            table: self.table,
            message: shown_opt(self.message),
        }
    }

    /// The screen as it opens: the users' tab, no dialog, the table at its first row.
    pub fn new(len: usize) -> (s: Self)
        requires
            len <= usize::MAX / 32,
        ensures
            s.selected_tab == SelectedTab::Users,
            s.popup == Popup::Closed,
            s.table == crate::table::new_table(len as int),
            s.message is None,
            table_wf(s.table, len as int),
    {
        ManageState {
            selected_tab: SelectedTab::Users,
            popup: Popup::Closed,
            table: AdminTable::new(len),
            message: None,
        }
    }

    /// Handles a key press (`ctrl` tells whether Control was held) while `data` is
    /// listed. See [`manage_step`].
    pub fn handle_key_event(&mut self, key: Key, ctrl: bool, data: &TableData) -> (a: ManageAction)
        requires
            manage_key_ok(old(self).view(), key, ctrl, *data),
        ensures
            (final(self).view(), a) == manage_step(old(self).view(), key, ctrl, *data),
    {
        if self.message.is_some() {
            if key == Key::Enter {
                self.message = None;
            }
            return ManageAction::Nothing;
        }
        let idx = match self.table.selected {
            Some(i) => i,
            None => 0,
        };
        match self.popup {
            Popup::Closed => {
                let n = data.len();
                match table_move(key, ctrl) {
                    Some(m) => {
                        self.table.apply_move(m, n);
                        return ManageAction::Nothing;
                    },
                    None => {},
                }
                if key == Key::Tab {
                    self.selected_tab = self.selected_tab.next();
                } else if key == Key::BackTab {
                    self.selected_tab = self.selected_tab.previous();
                } else if key == Key::Char('q') || key == Key::Esc || (ctrl && key == Key::Char('c')) {
                    return ManageAction::Quit;
                } else if key == Key::Char('l') || key == Key::Right {
                    return ManageAction::NextColumn;
                } else if key == Key::Char('h') || key == Key::Left {
                    return ManageAction::PreviousColumn;
                } else if key == Key::Char('d') && !ctrl {
                    if data.could_delete(self.selected_tab, idx) {
                        self.popup = Popup::Delete(idx);
                    } else {
                        self.popup = Popup::Closed;
                        return ManageAction::CloseForm;
                    }
                } else if key == Key::Char('a') {
                    self.popup = Popup::Add;
                    return ManageAction::OpenAdd;
                } else if key == Key::Char('e') {
                    if data.could_delete(self.selected_tab, idx) {
                        self.popup = Popup::Edit;
                        return ManageAction::OpenEdit(idx);
                    } else {
                        self.popup = Popup::Closed;
                        return ManageAction::CloseForm;
                    }
                } else if key == Key::Char('r') {
                    if data.could_delete(SelectedTab::Users, idx) {
                        self.popup = Popup::Edit;
                        return ManageAction::OpenGrantRole(idx);
                    } else {
                        self.popup = Popup::Closed;
                        return ManageAction::CloseForm;
                    }
                }
                ManageAction::Nothing
            },
            Popup::Add | Popup::Edit => ManageAction::ToForm,
            Popup::Delete(i) => {
                if key == Key::Char('y') || key == Key::Char('Y') {
                    self.popup = Popup::Closed;
                    ManageAction::Delete(i)
                } else if key == Key::Char('n') || key == Key::Char('N') {
                    self.popup = Popup::Closed;
                    ManageAction::CloseForm
                } else {
                    ManageAction::Nothing
                }
            },
        }
    }

    /// The open editor is done with a key (its form was saved or its cancellation
    /// confirmed): a cancelled form closes the dialog and is dropped with nothing
    /// stored; a saved one is created in the store when it was opened to add a
    /// record, and updated when it was opened to edit one.
    pub fn edit_done(&mut self, cancelled: bool) -> (a: EditAction)
        requires
            old(self).popup == Popup::Add || old(self).popup == Popup::Edit,
        ensures
            a == if cancelled {
                EditAction::DropEditor
            } else if old(self).popup == Popup::Add {
                EditAction::Create
            } else {
                EditAction::Update
            },
            final(self).view() == (ManageView {
                popup: if cancelled {
                    Popup::Closed
                } else {
                    old(self).popup
                },
                ..old(self).view()
            }),
    {
        if cancelled {
            self.popup = Popup::Closed;
            EditAction::DropEditor
        } else if self.popup == Popup::Add {
            EditAction::Create
        } else {
            EditAction::Update
        }
    }

    /// Reports how the save of the open form went in the store; `password` is the
    /// password generated for a user, or empty. A record that was stored closes the
    /// form, whose editor is then dropped and the records read again; else the form
    /// stays open under the error.
    pub fn store_done(&mut self, result: StoreResult, password: &str) -> (a: AfterStore)
        requires
            old(self).popup == Popup::Add || old(self).popup == Popup::Edit,
        ensures
            a == if result == StoreResult::Stored {
                AfterStore::DropEditor
            } else {
                AfterStore::KeepEditor
            },
            final(self).view() == (ManageView {
                message: Some(
                    store_shown(old(self).selected_tab, old(self).popup == Popup::Add, result, password@),
                ),
                popup: if result == StoreResult::Stored {
                    Popup::Closed
                } else {
                    old(self).popup
                },
                ..old(self).view()
            }),
    {
        let added = self.popup == Popup::Add;
        let m = match result {
            StoreResult::Stored => {
                let first = concat(
                    kind_text(self.selected_tab).as_str(),
                    if added {
                        " added"
                    } else {
                        " updated"
                    },
                );
                if self.selected_tab == SelectedTab::Users && !password.is_empty() {
                    let second = concat("New password: ", password);
                    let v = vec![first, second];
                    let m = Message::Success(v);
                    assert(shown(&m).lines =~= seq![v@[0]@, v@[1]@]);
                    m
                } else {
                    let v = vec![first];
                    let m = Message::Success(v);
                    assert(shown(&m).lines =~= seq![v@[0]@]);
                    m
                }
            },
            StoreResult::Duplicate => {
                let t = if self.selected_tab == SelectedTab::Users {
                    "Username already exists".to_string()
                } else {
                    concat(kind_text(self.selected_tab).as_str(), " already exists")
                };
                let v = vec![t];
                let m = Message::Error(v);
                assert(shown(&m).lines =~= seq![v@[0]@]);
                m
            },
            StoreResult::Failed => {
                let v = vec!["Internal error".to_string()];
                let m = Message::Error(v);
                assert(shown(&m).lines =~= seq![v@[0]@]);
                m
            },
        };
        self.message = Some(m);
        if result == StoreResult::Stored {
            self.popup = Popup::Closed;
            AfterStore::DropEditor
        } else {
            AfterStore::KeepEditor
        }
    }

    /// Reports how the deletion asked by the last key press went: after a deletion
    /// the records are read again, after a failure they are kept as they were.
    pub fn delete_done(&mut self, deleted: bool) -> (a: AfterDelete)
        ensures
            a == if deleted {
                AfterDelete::Reload
            } else {
                AfterDelete::Keep
            },
            final(self).view() == (ManageView {
                message: Some(
                    if deleted {
                        ShownMessage {
                            kind: MessageKind::Success,
                            lines: seq![record_kind(old(self).selected_tab) + " deleted"@],
                        }
                    } else {
                        ShownMessage { kind: MessageKind::Error, lines: seq!["Internal error"@] }
                    },
                ),
                ..old(self).view()
            }),
    {
        let v = if deleted {
            vec![concat(kind_text(self.selected_tab).as_str(), " deleted")]
        } else {
            vec!["Internal error".to_string()]
        };
        let m = if deleted {
            Message::Success(v)
        } else {
            Message::Error(v)
        };
        assert(shown(&m).lines =~= seq![v@[0]@]);
        self.message = Some(m);
        if deleted {
            AfterDelete::Reload
        } else {
            AfterDelete::Keep
        }
    }
}

/// Asking to delete (`d`) and answering no (`n`) leaves the screen as it was, with
/// any dialog closed.
pub proof fn law_delete_declined(s: ManageView, data: TableData)
    requires
        s.message is None,
        s.popup == Popup::Closed,
    ensures
        manage_step(manage_step(s, Key::Char('d'), false, data).0, Key::Char('n'), false, data).0 == s,
{
}

/// A record is deleted only after the question was answered with `y`, and only the
/// record the question was asked about.
pub proof fn law_delete_needs_answer(s: ManageView, key: Key, ctrl: bool, data: TableData, i: usize)
    ensures
        manage_step(s, key, ctrl, data).1 == ManageAction::Delete(i) ==> {
            &&& s.message is None
            &&& s.popup == Popup::Delete(i)
            &&& key == Key::Char('y') || key == Key::Char('Y')
        },
{
}

/// The deletion question is only asked about a row that holds a record of the tab.
pub proof fn law_delete_asked_of_record(s: ManageView, key: Key, ctrl: bool, data: TableData, i: usize)
    requires
        s.popup != Popup::Delete(i),
    ensures
        manage_step(s, key, ctrl, data).0.popup == Popup::Delete(i) ==> has_record(data, s.selected_tab, i as int),
{
}

} // verus!
