//! The group editor of the administration console: one hierarchy shown as a tree of
//! groups and their members, a table of the names that can be added to the selected
//! group, and what each key press does. The tree itself is drawn and walked by the
//! console; the editor is told which path of the tree is selected.
use vstd::prelude::*;
use crate::models::user::strings_view;
use crate::roles::{
    group_insert_refusal_spec, ptype_text, spec_parse_uuid, CasbinRule, ObjectGroup, RoleManage,
    RoleType,
};
use crate::table::{move_ok, moved, new_table, table_move, table_move_spec, table_wf, AdminTable};
use crate::text::{chars_to_string, push_all, str_chars, str_eq_chars};
use crate::tui::{shown, shown_opt, Key, Message, MessageKind, ShownMessage};

verus! {

broadcast use vstd::string::group_string_axioms;

/// A move of the tree's selection.
#[derive(Clone, Copy, Debug, PartialEq, Eq, Structural)]
pub enum TreeMove {
    /// Close the selected node, or select its parent.
    Left,
    /// Open the selected node.
    Right,
    Down,
    Up,
    First,
    Last,
    PageUp,
    PageDown,
}

/// Which help lines the editor shows: those of the tree or of the table.
#[derive(Clone, Copy, Debug, PartialEq, Eq, Structural)]
pub enum GroupHelp {
    Tree,
    Table,
}

/// An addition asked of the store, remembered to report how it went: the kind of
/// the member, its name and the group's name.
pub struct PendingInsert {
    pub kind: String,
    pub name: String,
    pub group_name: String,
}

/// What the console is asked to do after a key press.
pub enum GroupAction {
    /// Nothing.
    Keep,
    /// Move the tree's selection.
    Tree(TreeMove),
    /// Store this group rule, then report with [`CasbinGroupEditor::insert_done`].
    Create(CasbinRule),
    /// Delete the group rule of this type that makes `member` a member of `group`, then
    /// report with [`CasbinGroupEditor::delete_done`].
    Delete { ptype: String, member: String, group: String },
}

/// The answer to a key press: whether the editor is done, and what to do.
pub struct GroupOutcome {
    pub close: bool,
    pub action: GroupAction,
}

/// How a stored addition went.
#[derive(Clone, Copy, Debug, PartialEq, Eq, Structural)]
pub enum InsertResult {
    Created,
    /// The rule was there already.
    Duplicate,
    Failed,
}

/// The editor's state between key presses.
pub struct CasbinGroupEditor {
    pub group_type: RoleType,
    /// Who edits; the rules it adds are stamped with it.
    pub admin_id: String,
    /// The names that can be added to a group.
    pub selector_items: Vec<ObjectGroup>,
    pub selector_table: AdminTable,
    /// Whether a name is being picked from the table.
    pub is_editing: bool,
    /// Whether a deletion waits to be confirmed.
    pub is_deleting: bool,
    pub message: Option<Message>,
    pub help: GroupHelp,
    pub pending: Option<PendingInsert>,
}

/// The editor's state as it matters to key presses.
pub struct GroupView {
    pub table: AdminTable,
    pub is_editing: bool,
    pub is_deleting: bool,
    pub message: Option<ShownMessage>,
    pub help: GroupHelp,
    /// The kind, name and group name of the addition being stored.
    pub pending: Option<(Seq<char>, Seq<char>, Seq<char>)>,
}

/// What the console is asked to do, with texts as character sequences.
pub enum ActionView {
    Keep,
    Tree(TreeMove),
    Create { ptype: Seq<char>, member: Seq<char>, group: Seq<char> },
    Delete { ptype: Seq<char>, member: Seq<char>, group: Seq<char> },
}

pub open spec fn action_view(a: GroupAction) -> ActionView {
    match a {
        GroupAction::Keep => ActionView::Keep,
        GroupAction::Tree(m) => ActionView::Tree(m),
        GroupAction::Create(r) => ActionView::Create { ptype: r.ptype@, member: r.v0@, group: r.v1@ },
        GroupAction::Delete { ptype, member, group } => ActionView::Delete {
            ptype: ptype@,
            member: member@,
            group: group@,
        },
    }
}

/// The name of the first entry with id `id`, or `Unknown`.
pub open spec fn name_of(items: Seq<ObjectGroup>, id: Seq<char>) -> Seq<char>
    decreases items.len(),
{
    if items.len() == 0 {
        "Unknown"@
    } else if items[0].id@ == id {
        items[0].name@
    } else {
        name_of(items.drop_first(), id)
    }
}

/// How a member being added is called: a group, or a user, target or action.
pub open spec fn member_kind(is_group: bool, rt: RoleType) -> Seq<char> {
    if is_group {
        "Group"@
    } else {
        match rt {
            RoleType::Subject => "User"@,
            RoleType::Object => "Target"@,
            RoleType::Action => "Action"@,
        }
    }
}

/// An error message of one line.
pub open spec fn error_shown(line: Seq<char>) -> Option<ShownMessage> {
    Some(ShownMessage { kind: MessageKind::Error, lines: seq![line] })
}

/// The row a table has selected.
pub open spec fn selected_row(t: AdminTable) -> int {
    match t.selected {
        Some(i) => i as int,
        None => 0,
    }
}

/// Adding the name selected in the table to the group at the head of the selected
/// path: refused with an error when no group is selected or when it would close a
/// cycle of groups; else the rule is to be stored, and what to report is remembered.
pub open spec fn insert_step(
    s: GroupView,
    path: Seq<Seq<char>>,
    items: Seq<ObjectGroup>,
    rt: RoleType,
    rules: Seq<(Seq<char>, Seq<char>)>,
) -> (GroupView, ActionView) {
    let obj = items[selected_row(s.table)];
    if path.len() == 0 {
        (GroupView { message: error_shown("Internal error"@), ..s }, ActionView::Keep)
    } else {
        let group = path[0];
        match group_insert_refusal_spec(rules, obj.id@, obj.name@, obj.is_group, group) {
            Some(m) => (GroupView { message: error_shown(m), ..s }, ActionView::Keep),
            None => (
                GroupView {
                    pending: Some((member_kind(obj.is_group, rt), obj.name@, name_of(items, group))),
                    ..s
                },
                ActionView::Create { ptype: ptype_text(rt), member: obj.id@, group },
            ),
        }
    }
}

/// A key press on the editor in state `s`, with `path` selected in the tree (group
/// first): the new state, whether the editor is done, and what to do.
/// - With a message shown, Enter dismisses it; other keys do nothing.
/// - With a deletion to confirm, `y` deletes the rule of the selected member in the
///   selected group and `n` gives up; other keys do nothing.
/// - While a name is picked, Esc or `q` stop picking, the table keys move its cursor,
///   and Space or Enter add the selected name to the selected group.
/// - Else Esc, `q`, Tab and Shift+Tab leave; the arrows (or `h`, `j`, `k`, `l`), Home,
///   End and the page keys (or `b`, `f`) move the tree's selection; `a` starts picking
///   a name for the selected group; `d` asks to delete the selected member from its
///   group. Both need a selection, and `d` a member rather than a group.
pub open spec fn group_step(
    s: GroupView,
    key: Key,
    ctrl: bool,
    path: Seq<Seq<char>>,
    items: Seq<ObjectGroup>,
    rt: RoleType,
    rules: Seq<(Seq<char>, Seq<char>)>,
) -> (GroupView, bool, ActionView) {
    let keep = ActionView::Keep;
    if s.message is Some {
        if key == Key::Enter {
            (GroupView { message: None, ..s }, false, keep)
        } else {
            (s, false, keep)
        }
    } else if s.is_deleting {
        if key == Key::Char('y') || key == Key::Char('Y') {
            (
                GroupView { is_deleting: false, ..s },
                false,
                if path.len() > 1 {
                    ActionView::Delete { ptype: ptype_text(rt), member: path[1], group: path[0] }
                } else {
                    keep
                },
            )
        } else if key == Key::Char('n') || key == Key::Char('N') {
            (GroupView { is_deleting: false, ..s }, false, keep)
        } else {
            (s, false, keep)
        }
    } else if s.is_editing {
        if key == Key::Esc || key == Key::Char('q') {
            (GroupView { is_editing: false, help: GroupHelp::Tree, ..s }, false, keep)
        } else if table_move_spec(key, ctrl) is Some {
            let m = table_move_spec(key, ctrl)->0;
            (GroupView { table: moved(s.table, m, items.len() as int), ..s }, false, keep)
        } else if key == Key::Char(' ') || key == Key::Enter {
            let (s2, a) = insert_step(
                GroupView { is_editing: false, help: GroupHelp::Tree, ..s },
                path,
                items,
                rt,
                rules,
            );
            (s2, false, a)
        } else {
            (s, false, keep)
        }
    } else if key == Key::Esc || key == Key::Char('q') || key == Key::Tab || key == Key::BackTab {
        (s, true, keep)
    } else if tree_move_spec(key) is Some {
        (s, false, ActionView::Tree(tree_move_spec(key)->0))
    } else if key == Key::Char('a') {
        if path.len() == 0 {
            (GroupView { message: error_shown("Please select one group."@), ..s }, false, keep)
        } else {
            (GroupView { is_editing: true, help: GroupHelp::Table, ..s }, false, keep)
        }
    } else if key == Key::Char('d') {
        if path.len() == 0 {
            (GroupView { message: error_shown("Please select one group."@), ..s }, false, keep)
        } else if path.len() == 1 {
            (
                GroupView {
                    message: error_shown("Please select one item in group: "@ + name_of(items, path[0])),
                    ..s
                },
                false,
                keep,
            )
        } else {
            (GroupView { is_deleting: true, ..s }, false, keep)
        }
    } else {
        (s, false, keep)
    }
}

/// The tree move a key asks for, if any.
pub open spec fn tree_move_spec(key: Key) -> Option<TreeMove> {
    match key {
        Key::Left | Key::Char('h') => Some(TreeMove::Left),
        Key::Right | Key::Char('l') => Some(TreeMove::Right),
        Key::Down | Key::Char('j') => Some(TreeMove::Down),
        Key::Up | Key::Char('k') => Some(TreeMove::Up),
        Key::Home => Some(TreeMove::First),
        Key::End => Some(TreeMove::Last),
        Key::Char('b') | Key::PageUp => Some(TreeMove::PageUp),
        Key::Char('f') | Key::PageDown => Some(TreeMove::PageDown),
        _ => None,
    }
}

fn tree_move(key: Key) -> (r: Option<TreeMove>)
    ensures
        r == tree_move_spec(key),
{
    match key {
        Key::Left | Key::Char('h') => Some(TreeMove::Left),
        Key::Right | Key::Char('l') => Some(TreeMove::Right),
        Key::Down | Key::Char('j') => Some(TreeMove::Down),
        Key::Up | Key::Char('k') => Some(TreeMove::Up),
        Key::Home => Some(TreeMove::First),
        Key::End => Some(TreeMove::Last),
        Key::Char('b') | Key::PageUp => Some(TreeMove::PageUp),
        Key::Char('f') | Key::PageDown => Some(TreeMove::PageDown),
        _ => None,
    }
}

/// Whether a key press can be handled: while a name is picked, a table move needs the
/// table to fit its list and the move to be possible (see [`move_ok`]), and adding
/// needs the selected row to exist.
pub open spec fn group_key_ok(s: GroupView, key: Key, ctrl: bool, len: int) -> bool {
    (s.message is None && !s.is_deleting && s.is_editing && !(key == Key::Esc || key == Key::Char('q')))
        ==> {
        &&& (table_move_spec(key, ctrl) matches Some(m) ==> table_wf(s.table, len) && move_ok(s.table, m, len))
        &&& ((key == Key::Char(' ') || key == Key::Enter) ==> 0 <= selected_row(s.table) < len)
    }
}

fn error_message(line: String) -> (m: Message)
    ensures
        shown(&m) == (ShownMessage { kind: MessageKind::Error, lines: seq![line@] }),
{
    let v = vec![line];
    let m = Message::Error(v);
    assert(shown(&m).lines =~= seq![v@[0]@]);
    m
}

fn success_message(line: String) -> (m: Message)
    ensures
        shown(&m) == (ShownMessage { kind: MessageKind::Success, lines: seq![line@] }),
{
    let v = vec![line];
    let m = Message::Success(v);
    assert(shown(&m).lines =~= seq![v@[0]@]);
    m
}

/// The name of the first entry with id `id`, or `Unknown`.
pub fn find_name(items: &Vec<ObjectGroup>, id: &str) -> (r: String)
    ensures
        r@ == name_of(items@, id@),
{
    let idc = str_chars(id);
    let mut i: usize = 0;
    assert(items@.subrange(0, items@.len() as int) =~= items@);
    while i < items.len()
        invariant
            i <= items.len(),
            idc@ == id@,
            name_of(items@, id@) == name_of(items@.subrange(i as int, items@.len() as int), id@),
        decreases items.len() - i,
    {
        let ghost rest = items@.subrange(i as int, items@.len() as int);
        assert(rest.drop_first() =~= items@.subrange(i + 1, items@.len() as int));
        if str_eq_chars(items[i].id.as_str(), &idc) {
            return items[i].name.clone();
        }
        i = i + 1;
    }
    "Unknown".to_string()
}

fn member_kind_text(is_group: bool, rt: RoleType) -> (s: String)
    ensures
        s@ == member_kind(is_group, rt),
{
    if is_group {
        "Group".to_string()
    } else {
        match rt {
            RoleType::Subject => "User".to_string(),
            RoleType::Object => "Target".to_string(),
            RoleType::Action => "Action".to_string(),
        }
    }
}

/// The three texts joined: `a`, `b` and `c`, then `d`.
fn joined4(a: &str, b: &str, c: &str, d: &str, e: &str) -> (s: String)
    ensures
        s@ == a@ + b@ + c@ + d@ + e@,
{
    let mut v = str_chars(a);
    push_all(&mut v, &str_chars(b));
    push_all(&mut v, &str_chars(c));
    push_all(&mut v, &str_chars(d));
    push_all(&mut v, &str_chars(e));
    chars_to_string(&v)
}

impl CasbinGroupEditor {
    /// The state as it matters to key presses.
    pub open spec fn state(&self) -> GroupView {
        GroupView {
            table: self.selector_table,
            is_editing: self.is_editing,
            is_deleting: self.is_deleting,
            message: shown_opt(self.message),
            help: self.help,
            pending: match self.pending {
                Some(p) => Some((p.kind@, p.name@, p.group_name@)),
                None => None,
            },
        }
    }

    /// An editor of the hierarchy of kind `group_type` for `admin_id`, over the names
    /// that were read (only the groups, for the subjects' hierarchy, where users are
    /// granted roles elsewhere); when they could not be read, none, and an error shown.
    pub fn new(group_type: RoleType, admin_id: String, items: Vec<ObjectGroup>, load_failed: bool) -> (e: Self)
        requires
            items@.len() <= usize::MAX / 32,
        ensures
            e.group_type == group_type,
            e.admin_id == admin_id,
            load_failed ==> e.selector_items@.len() == 0 && e.state().message == error_shown("Internal error"@),
            !load_failed ==> e.state().message is None && e.selector_items@ == if group_type == RoleType::Subject {
                items@.filter(|o: ObjectGroup| o.is_group)
            } else {
                items@
            },
            e.selector_table == new_table(e.selector_items@.len() as int),
            !e.is_editing,
            !e.is_deleting,
            e.help == GroupHelp::Tree,
            e.pending is None,
    {
        let mut message: Option<Message> = None;
        let mut kept: Vec<ObjectGroup> = Vec::new();
        if load_failed {
            message = Some(error_message("Internal error".to_string()));
        } else if group_type == RoleType::Subject {
            let mut i: usize = 0;
            while i < items.len()
                invariant
                    i <= items.len(),
                    kept@ == items@.take(i as int).filter(|o: ObjectGroup| o.is_group),
                decreases items.len() - i,
            {
                proof {
                    assert(items@.take((i + 1) as int).drop_last() =~= items@.take(i as int));
                    assert(items@.take((i + 1) as int).last() == items@[i as int]);
                    reveal(Seq::filter);
                }
                if items[i].is_group {
                    kept.push(ObjectGroup {
                        id: items[i].id.clone(),
                        name: items[i].name.clone(),
                        is_group: true,
                    });
                }
                i = i + 1;
            }
            assert(items@.take(items@.len() as int) =~= items@);
        } else {
            kept = items;
        }
        proof {
            if !load_failed && group_type == RoleType::Subject {
                items@.lemma_filter_len(|o: ObjectGroup| o.is_group);
            }
        }
        let table = AdminTable::new(kept.len());
        CasbinGroupEditor {
            group_type,
            admin_id,
            selector_items: kept,
            selector_table: table,
            is_editing: false,
            is_deleting: false,
            message,
            help: GroupHelp::Tree,
            pending: None,
        }
    }

    /// Handles a key press (`ctrl` tells whether Control was held) while `selected` is
    /// the tree's selected path, group first; `roles` holds the hierarchies, to refuse
    /// an addition that would close a cycle. See [`group_step`]. A rule to be stored
    /// carries a fresh id, no action, no extended data, and the editing administrator.
    pub fn handle_key_event(
        &mut self,
        key: Key,
        ctrl: bool,
        selected: &Vec<String>,
        roles: &RoleManage,
    ) -> (r: GroupOutcome)
        requires
            roles.wf(),
            group_key_ok(old(self).state(), key, ctrl, old(self).selector_items@.len() as int),
        ensures
            ({
                let (v, close, a) = group_step(
                    old(self).state(),
                    key,
                    ctrl,
                    strings_view(selected@),
                    old(self).selector_items@,
                    old(self).group_type,
                    roles.rules(old(self).group_type),
                );
                &&& final(self).state() == v
                &&& r.close == close
                &&& action_view(r.action) == a
            }),
            final(self).group_type == old(self).group_type,
            final(self).admin_id == old(self).admin_id,
            final(self).selector_items == old(self).selector_items,
            r.action matches GroupAction::Create(rule) ==> {
                &&& spec_parse_uuid(rule.id@) is Some
                &&& rule.v2 is None
                &&& rule.v3@.len() == 0 && rule.v4@.len() == 0 && rule.v5@.len() == 0
                &&& rule.updated_by == old(self).admin_id
            },
    {
        let keep = GroupOutcome { close: false, action: GroupAction::Keep };
        if self.message.is_some() {
            if key == Key::Enter {
                self.message = None;
            }
            return keep;
        }
        if self.is_deleting {
            if key == Key::Char('y') || key == Key::Char('Y') {
                self.is_deleting = false;
                if selected.len() > 1 {
                    let ptype = self.group_type.ptype();
                    let member = selected[1].clone();
                    let group = selected[0].clone();
                    return GroupOutcome { close: false, action: GroupAction::Delete { ptype, member, group } };
                }
            } else if key == Key::Char('n') || key == Key::Char('N') {
                self.is_deleting = false;
            }
            return keep;
        }
        if self.is_editing {
            if key == Key::Esc || key == Key::Char('q') {
                self.is_editing = false;
                self.help = GroupHelp::Tree;
                return keep;
            }
            match table_move(key, ctrl) {
                Some(m) => {
                    let n = self.selector_items.len();
                    self.selector_table.apply_move(m, n);
                    return keep;
                },
                None => {},
            }
            if key == Key::Char(' ') || key == Key::Enter {
                self.is_editing = false;
                self.help = GroupHelp::Tree;
                let action = self.insert_group(selected, roles);
                return GroupOutcome { close: false, action };
            }
            return keep;
        }
        if key == Key::Esc || key == Key::Char('q') || key == Key::Tab || key == Key::BackTab {
            return GroupOutcome { close: true, action: GroupAction::Keep };
        }
        match tree_move(key) {
            Some(m) => {
                return GroupOutcome { close: false, action: GroupAction::Tree(m) };
            },
            None => {},
        }
        if key == Key::Char('a') {
            if selected.len() == 0 {
                self.message = Some(error_message("Please select one group.".to_string()));
            } else {
                self.help = GroupHelp::Table;
                self.is_editing = true;
            }
        } else if key == Key::Char('d') {
            if selected.len() == 0 {
                self.message = Some(error_message("Please select one group.".to_string()));
            } else if selected.len() == 1 {
                let g = find_name(&self.selector_items, selected[0].as_str());
                let mut v = str_chars("Please select one item in group: ");
                push_all(&mut v, &str_chars(g.as_str()));
                self.message = Some(error_message(chars_to_string(&v)));
            } else {
                self.is_deleting = true;
            }
        }
        keep
    }

    /// Adds the name selected in the table to the group at the head of `selected`.
    fn insert_group(&mut self, selected: &Vec<String>, roles: &RoleManage) -> (a: GroupAction)
        requires
            roles.wf(),
            0 <= selected_row(old(self).selector_table) < old(self).selector_items@.len(),
        ensures
            ({
                let (v, act) = insert_step(
                    old(self).state(),
                    strings_view(selected@),
                    old(self).selector_items@,
                    old(self).group_type,
                    roles.rules(old(self).group_type),
                );
                &&& final(self).state() == v
                &&& action_view(a) == act
            }),
            final(self).group_type == old(self).group_type,
            final(self).admin_id == old(self).admin_id,
            final(self).selector_items == old(self).selector_items,
            a matches GroupAction::Create(rule) ==> {
                &&& spec_parse_uuid(rule.id@) is Some
                &&& rule.v2 is None
                &&& rule.v3@.len() == 0 && rule.v4@.len() == 0 && rule.v5@.len() == 0
                &&& rule.updated_by == old(self).admin_id
            },
    {
        let idx = match self.selector_table.selected {
            Some(i) => i,
            None => 0,
        };
        if selected.len() == 0 {
            self.message = Some(error_message("Internal error".to_string()));
            return GroupAction::Keep;
        }
        let group = selected[0].as_str();
        assert(strings_view(selected@)[0] == group@);
        let obj = &self.selector_items[idx];
        match roles.group_insert_refusal(self.group_type, obj.id.as_str(), obj.name.as_str(), obj.is_group, group) {
            Some(m) => {
                self.message = Some(error_message(m));
                GroupAction::Keep
            },
            None => {
                let kind = member_kind_text(obj.is_group, self.group_type);
                let name = obj.name.clone();
                let group_name = find_name(&self.selector_items, group);
                let rule = CasbinRule::new(
                    self.group_type.ptype(),
                    obj.id.clone(),
                    group.to_string(),
                    None,
                    String::new(),
                    String::new(),
                    String::new(),
                    self.admin_id.clone(),
                );
                self.pending = Some(PendingInsert { kind, name, group_name });
                GroupAction::Create(rule)
            },
        }
    }

    /// Reports how the addition asked by the last key press went: added, already
    /// there, or failed.
    pub fn insert_done(&mut self, result: InsertResult)
        ensures
            ({
                let s = old(self).state();
                final(self).state() == match s.pending {
                    None => s,
                    Some((kind, name, group)) => GroupView {
                        pending: None,
                        message: match result {
                            InsertResult::Created => Some(ShownMessage {
                                kind: MessageKind::Success,
                                lines: seq![kind + ": "@ + name + " added in "@ + group],
                            }),
                            InsertResult::Duplicate => error_shown(
                                kind + ": "@ + name + " has already existed in "@ + group,
                            ),
                            InsertResult::Failed => error_shown("Internal error"@),
                        },
                        ..s
                    },
                }
            }),
            final(self).group_type == old(self).group_type,
            final(self).admin_id == old(self).admin_id,
            final(self).selector_items == old(self).selector_items,
    {
        match &self.pending {
            None => {},
            Some(p) => {
                let m = match result {
                    InsertResult::Created => success_message(
                        joined4(p.kind.as_str(), ": ", p.name.as_str(), " added in ", p.group_name.as_str()),
                    ),
                    InsertResult::Duplicate => error_message(
                        joined4(
                            p.kind.as_str(),
                            ": ",
                            p.name.as_str(),
                            " has already existed in ",
                            p.group_name.as_str(),
                        ),
                    ),
                    InsertResult::Failed => error_message("Internal error".to_string()),
                };
                self.message = Some(m);
                self.pending = None;
            },
        }
    }

    /// Reports how the deletion asked by the last key press went: whether a rule was
    /// deleted.
    pub fn delete_done(&mut self, deleted: bool)
        ensures
            final(self).state() == (GroupView {
                message: if deleted {
                    Some(ShownMessage { kind: MessageKind::Success, lines: seq!["Deleted successfully"@] })
                } else {
                    error_shown("Internal error"@)
                },
                ..old(self).state()
            }),
            final(self).group_type == old(self).group_type,
            final(self).admin_id == old(self).admin_id,
            final(self).selector_items == old(self).selector_items,
    {
        self.message = Some(
            if deleted {
                success_message("Deleted successfully".to_string())
            } else {
                error_message("Internal error".to_string())
            },
        );
    }
}

/// The editor never asks to store a rule that would close a cycle of groups: when the
/// name it adds is a group, that group is not the one it is added to and does not
/// already lead to it.
pub proof fn law_no_cycle_added(
    s: GroupView,
    path: Seq<Seq<char>>,
    items: Seq<ObjectGroup>,
    rt: RoleType,
    rules: Seq<(Seq<char>, Seq<char>)>,
)
    requires
        0 <= selected_row(s.table) < items.len(),
    ensures
        insert_step(s, path, items, rt, rules).1 matches ActionView::Create { member, group, .. } ==> {
            &&& member == items[selected_row(s.table)].id@
            &&& items[selected_row(s.table)].is_group ==> member != group && !crate::roles::role_reaches(
                rules,
                member,
                group,
            )
        },
{
}

/// A deletion is asked only when a member of a group is selected and the deletion was
/// confirmed with `y`.
pub proof fn law_delete_needs_confirmation(
    s: GroupView,
    key: Key,
    ctrl: bool,
    path: Seq<Seq<char>>,
    items: Seq<ObjectGroup>,
    rt: RoleType,
    rules: Seq<(Seq<char>, Seq<char>)>,
)
    ensures
        group_step(s, key, ctrl, path, items, rt, rules).2 is Delete ==> {
            &&& s.message is None
            &&& s.is_deleting
            &&& key == Key::Char('y') || key == Key::Char('Y')
            &&& path.len() > 1
        },
{
}

/// While a message is shown, only Enter does anything: it dismisses the message.
pub proof fn law_message_blocks(
    s: GroupView,
    key: Key,
    ctrl: bool,
    path: Seq<Seq<char>>,
    items: Seq<ObjectGroup>,
    rt: RoleType,
    rules: Seq<(Seq<char>, Seq<char>)>,
)
    requires
        s.message is Some,
    ensures
        group_step(s, key, ctrl, path, items, rt, rules) == if key == Key::Enter {
            (GroupView { message: None, ..s }, false, ActionView::Keep)
        } else {
            (s, false, ActionView::Keep)
        },
{
}

/// How many rows a page down scrolls the tree drawn in `win_rows` rows (two of them
/// borders), with `viewable` rows in all and `offset` the first one shown: a page,
/// or what is left when less than two pages are left below.
pub open spec fn page_down_rows(win_rows: u16, viewable: usize, offset: usize) -> int {
    let height = win_rows - 2;
    let next = offset + height;
    if next + height >= viewable {
        if viewable >= next {
            viewable - next
        } else {
            0
        }
    } else {
        height
    }
}

/// How many rows a page down scrolls the tree. See [`page_down_rows`].
pub fn page_down_scroll(win_rows: u16, viewable: usize, offset: usize) -> (r: usize)
    requires
        win_rows >= 2,
        offset + 2 * win_rows <= usize::MAX,
    ensures
        r == page_down_rows(win_rows, viewable, offset),
{
    let height: usize = (win_rows - 2) as usize;
    let next = offset + height;
    if next + height >= viewable {
        viewable.saturating_sub(next)
    } else {
        height
    }
}

/// The row selected after a page down of `scroll` rows: that many rows below the
/// selected one (at most the last number), or the first row when none was selected.
pub fn page_down_selection(current: Option<usize>, scroll: usize) -> (r: usize)
    ensures
        r == match current {
            Some(c) => if c + scroll > usize::MAX {
                usize::MAX as int
            } else {
                c + scroll
            },
            None => 0,
        },
{
    match current {
        Some(c) => c.saturating_add(scroll),
        None => 0,
    }
}

/// The row selected after a page up in a tree drawn in `win_rows` rows: a page above
/// the selected one (at least the first), or the last row when none was selected.
pub fn page_up_selection(current: Option<usize>, win_rows: u16) -> (r: usize)
    requires
        win_rows >= 2,
    ensures
        r == match current {
            Some(c) => if c < win_rows - 2 {
                0
            } else {
                c - (win_rows - 2)
            },
            None => usize::MAX as int,
        },
{
    let height: usize = (win_rows - 2) as usize;
    match current {
        Some(c) => c.saturating_sub(height),
        None => usize::MAX,
    }
}

/// A page down never scrolls past the last row: from a first shown row within the
/// tree, the new first shown row is still within it.
pub proof fn law_page_down_stays_inside(win_rows: u16, viewable: usize, offset: usize)
    requires
        win_rows >= 2,
        offset <= viewable,
    ensures
        0 <= page_down_rows(win_rows, viewable, offset),
        offset + page_down_rows(win_rows, viewable, offset) <= viewable,
{
}

} // verus!
