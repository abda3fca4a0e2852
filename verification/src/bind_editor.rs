//! The binding editor of the administration console: a table of targets beside the
//! table of secrets, each marked as bound to the selected target or not; a key press
//! moves the focus or a table's cursor, or toggles the binding of the selected
//! secret. Reading and writing the bindings are the console's.
use vstd::prelude::*;
use crate::manage::{longest, longest_of, widest_of};
use crate::models::target::TargetInfo;
use crate::models::target_secret::SecretInfo;
use crate::models::user::strings_view;
use crate::table::{move_ok, moved, new_table, table_move, table_move_spec, table_wf, widest, AdminTable, TableMove};
use crate::text::utf8_len;
use crate::tui::{other_table, FocusedTable, Key};

verus! {

broadcast use vstd::string::group_string_axioms;

/// What the console is asked to do after a key press.
pub enum BindAction {
    Keep,
    /// Leave the editor.
    Close,
    /// List the secrets again for the target with this id, then report with
    /// [`BindEditor::set_secrets`].
    RefreshSecrets(String),
    /// Bind (or unbind) the secret to the target, as `user_id`, then report with
    /// [`BindEditor::toggle_done`] and list the secrets again.
    Toggle { target_id: String, secret_id: String, bind: bool, user_id: String },
}

/// What the console is asked to do, with texts as character sequences.
pub enum BindActionView {
    Keep,
    Close,
    RefreshSecrets(Seq<char>),
    Toggle { target_id: Seq<char>, secret_id: Seq<char>, bind: bool, user_id: Seq<char> },
}

pub open spec fn bind_action_view(a: BindAction) -> BindActionView {
    match a {
        BindAction::Keep => BindActionView::Keep,
        BindAction::Close => BindActionView::Close,
        BindAction::RefreshSecrets(id) => BindActionView::RefreshSecrets(id@),
        BindAction::Toggle { target_id, secret_id, bind, user_id } => BindActionView::Toggle {
            target_id: target_id@,
            secret_id: secret_id@,
            bind,
            user_id: user_id@,
        },
    }
}

/// The editor's state between key presses.
pub struct BindEditor {
    pub targets: Vec<TargetInfo>,
    pub secrets: Vec<SecretInfo>,
    pub target_table: AdminTable,
    pub secret_table: AdminTable,
    pub focused_table: FocusedTable,
    /// Who edits; the bindings it changes are stamped with it.
    pub user_id: String,
    /// The error of the last write or listing, shown until Enter.
    pub save_error: Option<String>,
}

/// The row a table has selected.
pub open spec fn selected_row(t: AdminTable) -> int {
    match t.selected {
        Some(i) => i as int,
        None => 0,
    }
}

/// The secrets are listed again for the selected target, when a target is selected.
pub open spec fn refresh_of(e: BindEditor) -> BindActionView {
    let i = selected_row(e.target_table);
    if 0 <= i < e.targets@.len() {
        BindActionView::RefreshSecrets(e.targets@[i].id@)
    } else {
        BindActionView::Keep
    }
}

/// A key press on the editor `e`: the new state and what to do.
/// - With an error shown, Enter dismisses it; other keys do nothing.
/// - Esc, `q`, Tab and Shift+Tab leave.
/// - `+` and `-` zoom both tables.
/// - The page keys (or Ctrl+F, Ctrl+B) and the up and down arrows (or `j`, `k`) move
///   the focused table's cursor; on the targets, the secrets are then listed again for
///   the selected target.
/// - The left and right arrows (or `h`, `l`) focus the other table.
/// - Space or Enter bind the selected secret to the selected target, or unbind it.
pub open spec fn bind_step(e: BindEditor, key: Key, ctrl: bool) -> (BindEditor, BindActionView) {
    let keep = BindActionView::Keep;
    if e.save_error is Some {
        if key == Key::Enter {
            (BindEditor { save_error: None, ..e }, keep)
        } else {
            (e, keep)
        }
    } else if key == Key::Esc || key == Key::Char('q') || key == Key::Tab || key == Key::BackTab {
        (e, BindActionView::Close)
    } else if key == Key::Char('+') || key == Key::Char('-') {
        let m = table_move_spec(key, ctrl)->0;
        (
            BindEditor {
                target_table: moved(e.target_table, m, e.targets@.len() as int),
                secret_table: moved(e.secret_table, m, e.secrets@.len() as int),
                ..e
            },
            keep,
        )
    } else if table_move_spec(key, ctrl) is Some {
        let m = table_move_spec(key, ctrl)->0;
        if e.focused_table == FocusedTable::Left {
            let e2 = BindEditor { target_table: moved(e.target_table, m, e.targets@.len() as int), ..e };
            (e2, refresh_of(e2))
        } else {
            (BindEditor { secret_table: moved(e.secret_table, m, e.secrets@.len() as int), ..e }, keep)
        }
    } else if key == Key::Right || key == Key::Char('l') || key == Key::Left || key == Key::Char('h') {
        (BindEditor { focused_table: other_table(e.focused_table), ..e }, keep)
    } else if key == Key::Char(' ') || key == Key::Enter {
        let t = e.targets@[selected_row(e.target_table)];
        let s = e.secrets@[selected_row(e.secret_table)];
        (
            e,
            BindActionView::Toggle { target_id: t.id@, secret_id: s.id@, bind: !s.is_bound, user_id: e.user_id@ },
        )
    } else {
        (e, keep)
    }
}

/// Whether a key press can be handled: a table move needs the table to fit its list
/// and the move to be possible (see [`move_ok`]), for both tables when zooming; a
/// toggle needs a selected target and a selected secret.
pub open spec fn bind_key_ok(e: BindEditor, key: Key, ctrl: bool) -> bool {
    (e.save_error is None) ==> {
        &&& (table_move_spec(key, ctrl) matches Some(m) ==> {
            let focused_moves = !(m == TableMove::ZoomIn || m == TableMove::ZoomOut);
            &&& (!focused_moves || e.focused_table == FocusedTable::Left) ==> table_wf(
                e.target_table,
                e.targets@.len() as int,
            ) && move_ok(e.target_table, m, e.targets@.len() as int)
            &&& (!focused_moves || e.focused_table == FocusedTable::Right) ==> table_wf(
                e.secret_table,
                e.secrets@.len() as int,
            ) && move_ok(e.secret_table, m, e.secrets@.len() as int)
        })
        &&& ((key == Key::Char(' ') || key == Key::Enter) ==> 0 <= selected_row(e.target_table)
            < e.targets@.len() && 0 <= selected_row(e.secret_table) < e.secrets@.len())
    }
}

impl BindEditor {
    /// An editor over the targets and the secrets listed for the first target, the
    /// targets focused, each table at its first row.
    pub fn new(targets: Vec<TargetInfo>, secrets: Vec<SecretInfo>, user_id: String) -> (e: Self)
        requires
            targets@.len() <= usize::MAX / 32,
            secrets@.len() <= usize::MAX / 32,
        ensures
            e.targets == targets,
            e.secrets == secrets,
            e.target_table == new_table(targets@.len() as int),
            e.secret_table == new_table(secrets@.len() as int),
            e.focused_table == FocusedTable::Left,
            e.user_id == user_id,
            e.save_error is None,
    {
        let target_table = AdminTable::new(targets.len());
        let secret_table = AdminTable::new(secrets.len());
        BindEditor {
            targets,
            secrets,
            target_table,
            secret_table,
            focused_table: FocusedTable::Left,
            user_id,
            save_error: None,
        }
    }

    fn refresh_action(&self) -> (a: BindAction)
        ensures
            bind_action_view(a) == refresh_of(*self),
    {
        let i = match self.target_table.selected {
            Some(i) => i,
            None => 0,
        };
        if i < self.targets.len() {
            BindAction::RefreshSecrets(self.targets[i].id.clone())
        } else {
            BindAction::Keep
        }
    }

    /// Handles a key press (`ctrl` tells whether Control was held). See [`bind_step`].
    pub fn handle_key_event(&mut self, key: Key, ctrl: bool) -> (a: BindAction)
        requires
            bind_key_ok(*old(self), key, ctrl),
        ensures
            (*final(self), bind_action_view(a)) == bind_step(*old(self), key, ctrl),
    {
        if self.save_error.is_some() {
            if key == Key::Enter {
                self.save_error = None;
            }
            return BindAction::Keep;
        }
        if key == Key::Esc || key == Key::Char('q') || key == Key::Tab || key == Key::BackTab {
            return BindAction::Close;
        }
        match table_move(key, ctrl) {
            Some(m) => {
                if key == Key::Char('+') || key == Key::Char('-') {
                    let nt = self.targets.len();
                    let ns = self.secrets.len();
                    self.target_table.apply_move(m, nt);
                    self.secret_table.apply_move(m, ns);
                    return BindAction::Keep;
                }
                if self.focused_table == FocusedTable::Left {
                    let nt = self.targets.len();
                    self.target_table.apply_move(m, nt);
                    return self.refresh_action();
                } else {
                    let ns = self.secrets.len();
                    self.secret_table.apply_move(m, ns);
                    return BindAction::Keep;
                }
            },
            None => {},
        }
        if key == Key::Right || key == Key::Char('l') || key == Key::Left || key == Key::Char('h') {
            self.focused_table = self.focused_table.next();
            return BindAction::Keep;
        }
        if key == Key::Char(' ') || key == Key::Enter {
            let ti = match self.target_table.selected {
                Some(i) => i,
                None => 0,
            };
            let si = match self.secret_table.selected {
                Some(i) => i,
                None => 0,
            };
            return BindAction::Toggle {
                target_id: self.targets[ti].id.clone(),
                secret_id: self.secrets[si].id.clone(),
                bind: !self.secrets[si].is_bound,
                user_id: self.user_id.clone(),
            };
        }
        BindAction::Keep
    }

    /// Reports the secrets listed again for the selected target, or the error of the
    /// listing (shown, the secrets kept).
    pub fn set_secrets(&mut self, listed: Result<Vec<SecretInfo>, String>)
        ensures
            match listed {
                Ok(s) => *final(self) == (BindEditor { secrets: s, ..*old(self) }),
                Err(m) => *final(self) == (BindEditor { save_error: Some(m), ..*old(self) }),
            },
    {
        match listed {
            Ok(s) => self.secrets = s,
            Err(m) => self.save_error = Some(m),
        }
    }

    /// Reports how a toggle went: its error, if any, is shown.
    pub fn toggle_done(&mut self, result: Result<(), String>)
        ensures
            match result {
                Ok(()) => *final(self) == *old(self),
                Err(m) => *final(self) == (BindEditor { save_error: Some(m), ..*old(self) }),
            },
    {
        match result {
            Ok(()) => {},
            Err(m) => self.save_error = Some(m),
        }
    }
}

pub open spec fn target_names(data: Seq<TargetInfo>) -> Seq<Seq<char>> {
    data.map_values(|t: TargetInfo| t.name@)
}

pub open spec fn target_hostnames(data: Seq<TargetInfo>) -> Seq<Seq<char>> {
    data.map_values(|t: TargetInfo| t.hostname@)
}

/// The widths of the targets' columns: the widest name (at least 4 columns), the
/// longest host name in bytes (at least 8), and 5 for the port.
pub fn target_len_calculator(data: &Vec<TargetInfo>) -> (r: Vec<u16>)
    requires
        forall|i: int| 0 <= i < data@.len() ==> utf8_len((#[trigger] data@[i]).hostname@) <= usize::MAX,
    ensures
        r@ == seq![
            widest(target_names(data@), data@.len() as int, 4) as u16,
            longest(target_hostnames(data@), data@.len() as int, 8) as u16,
            5u16,
        ],
{
    let mut names: Vec<String> = Vec::new();
    let mut hosts: Vec<String> = Vec::new();
    let mut i: usize = 0;
    while i < data.len()
        invariant
            i <= data.len(),
            strings_view(names@) == target_names(data@).take(i as int),
            strings_view(hosts@) == target_hostnames(data@).take(i as int),
            forall|j: int| 0 <= j < hosts@.len() ==> utf8_len((#[trigger] hosts@[j])@) <= usize::MAX,
            hosts@.len() == i,
            forall|j: int| 0 <= j < data@.len() ==> utf8_len((#[trigger] data@[j]).hostname@) <= usize::MAX,
        decreases data.len() - i,
    {
        let ghost before_n = names@;
        let ghost before_h = hosts@;
        names.push(data[i].name.clone());
        hosts.push(data[i].hostname.clone());
        assert(names@ == before_n.push(data@[i as int].name));
        assert(hosts@ == before_h.push(data@[i as int].hostname));
        assert(target_names(data@)[i as int] == data@[i as int].name@);
        assert(target_hostnames(data@)[i as int] == data@[i as int].hostname@);
        assert(utf8_len(hosts@[i as int]@) <= usize::MAX);
        assert(strings_view(names@) =~= strings_view(before_n).push(data@[i as int].name@));
        assert(strings_view(hosts@) =~= strings_view(before_h).push(data@[i as int].hostname@));
        assert(target_names(data@).take(i + 1) =~= target_names(data@).take(i as int).push(data@[i as int].name@));
        assert(target_hostnames(data@).take(i + 1) =~= target_hostnames(data@).take(i as int).push(
            data@[i as int].hostname@,
        ));
        i = i + 1;
    }
    assert(target_names(data@).take(data@.len() as int) =~= target_names(data@));
    assert(target_hostnames(data@).take(data@.len() as int) =~= target_hostnames(data@));
    let w = widest_of(&names, 4);
    let h = longest_of(&hosts, 8);
    proof {
        assert(strings_view(names@).len() == data@.len());
    }
    vec![w as u16, h as u16, 5]
}

} // verus!
