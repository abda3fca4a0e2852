//! The role editor of the administration console: the roles a user can be granted,
//! each marked as held or not; a key press moves the table's cursor or grants or
//! revokes the selected role. Writing the rules is the console's.
use vstd::prelude::*;
use crate::roles::{spec_parse_uuid, CasbinRule, Role};
use crate::table::{move_ok, moved, new_table, table_move, table_move_spec, table_wf, widest, AdminTable};
use crate::manage::widest_of;
use crate::models::user::strings_view;
use crate::tui::Key;

verus! {

broadcast use vstd::string::group_string_axioms;

/// What the console is asked to do after a key press.
pub enum GrantAction {
    Keep,
    /// Leave the editor.
    Close,
    /// Delete the rule with this id, then report with [`GrantRoleEditor::grant_done`].
    Revoke(String),
    /// Store this rule, then report with [`GrantRoleEditor::grant_done`].
    Grant(CasbinRule),
}

/// The editor's state between key presses.
pub struct GrantRoleEditor {
    pub items: Vec<Role>,
    /// The user whose roles are edited.
    pub selected_user_id: String,
    /// Who edits; the rules it adds are stamped with it.
    pub user_id: String,
    pub role_table: AdminTable,
    /// The error of the last change, shown until Enter.
    pub save_error: Option<String>,
    /// The row whose change the store is making.
    pub pending: Option<usize>,
}

/// The row a table has selected.
pub open spec fn selected_row(t: AdminTable) -> int {
    match t.selected {
        Some(i) => i as int,
        None => 0,
    }
}

/// Whether a key press can be handled: a table move needs the table to fit the list
/// and the move to be possible (see [`move_ok`]); a change needs a selected role.
pub open spec fn grant_key_ok(e: GrantRoleEditor, key: Key, ctrl: bool) -> bool {
    let n = e.items@.len() as int;
    (e.save_error is None) ==> {
        &&& (table_move_spec(key, ctrl) matches Some(m) ==> table_wf(e.role_table, n) && move_ok(e.role_table, m, n))
        &&& ((key == Key::Char(' ') || key == Key::Enter) ==> 0 <= selected_row(e.role_table) < n)
    }
}

impl GrantRoleEditor {
    /// An editor of the roles of `selected_user_id`, for `user_id`, over the roles that
    /// were listed; `load_error` is the error of the listing, if it failed.
    pub fn new(items: Vec<Role>, selected_user_id: String, user_id: String, load_error: Option<String>) -> (e: Self)
        requires
            items@.len() <= usize::MAX / 32,
        ensures
            e.items == items,
            e.selected_user_id == selected_user_id,
            e.user_id == user_id,
            e.role_table == new_table(items@.len() as int),
            e.save_error == load_error,
            e.pending is None,
    {
        let role_table = AdminTable::new(items.len());
        GrantRoleEditor { items, selected_user_id, user_id, role_table, save_error: load_error, pending: None }
    }

    /// Handles a key press (`ctrl` tells whether Control was held):
    /// - with an error shown, Enter dismisses it and other keys do nothing;
    /// - Esc, `q`, Tab and Shift+Tab leave;
    /// - the table keys move the table's cursor;
    /// - Space or Enter revoke the selected role when the user holds it (by its rule,
    ///   which must be known), else grant it with a new subject group rule.
    pub fn handle_key_event(&mut self, key: Key, ctrl: bool) -> (a: GrantAction)
        requires
            grant_key_ok(*old(self), key, ctrl),
        ensures
            final(self).items == old(self).items,
            final(self).selected_user_id == old(self).selected_user_id,
            final(self).user_id == old(self).user_id,
            old(self).save_error is Some ==> a is Keep && *final(self) == if key == Key::Enter {
                GrantRoleEditor { save_error: None, ..*old(self) }
            } else {
                *old(self)
            },
            old(self).save_error is None ==> {
                let n = old(self).items@.len() as int;
                let i = selected_row(old(self).role_table);
                if key == Key::Esc || key == Key::Char('q') || key == Key::Tab || key == Key::BackTab {
                    a is Close && *final(self) == *old(self)
                } else if table_move_spec(key, ctrl) is Some {
                    a is Keep && *final(self) == (GrantRoleEditor {
                        role_table: moved(old(self).role_table, table_move_spec(key, ctrl)->0, n),
                        ..*old(self)
                    })
                } else if key == Key::Char(' ') || key == Key::Enter {
                    let r = old(self).items@[i];
                    if r.is_bound {
                        match r.rule_id {
                            Some(id) => a matches GrantAction::Revoke(x) && x@ == id@ && *final(self) == (GrantRoleEditor {
                                pending: Some(i as usize),
                                ..*old(self)
                            }),
                            None => a is Keep && final(self).save_error is Some && *final(self) == (GrantRoleEditor {
                                save_error: final(self).save_error,
                                ..*old(self)
                            }),
                        }
                    } else {
                        &&& a matches GrantAction::Grant(rule) && {
                            &&& rule.ptype@ == "g1"@
                            &&& rule.v0 == r.rid
                            &&& rule.v1 == old(self).selected_user_id
                            &&& rule.v2 is None
                            &&& rule.v3@.len() == 0 && rule.v4@.len() == 0 && rule.v5@.len() == 0
                            &&& rule.updated_by == old(self).user_id
                            &&& spec_parse_uuid(rule.id@) is Some
                        }
                        &&& *final(self) == (GrantRoleEditor { pending: Some(i as usize), ..*old(self) })
                    }
                } else {
                    a is Keep && *final(self) == *old(self)
                }
            },
    {
        if self.save_error.is_some() {
            if key == Key::Enter {
                self.save_error = None;
            }
            return GrantAction::Keep;
        }
        if key == Key::Esc || key == Key::Char('q') || key == Key::Tab || key == Key::BackTab {
            return GrantAction::Close;
        }
        match table_move(key, ctrl) {
            Some(m) => {
                let n = self.items.len();
                self.role_table.apply_move(m, n);
                return GrantAction::Keep;
            },
            None => {},
        }
        if key == Key::Char(' ') || key == Key::Enter {
            let i = match self.role_table.selected {
                Some(i) => i,
                None => 0,
            };
            if self.items[i].is_bound {
                match &self.items[i].rule_id {
                    Some(id) => {
                        let id = id.clone();
                        self.pending = Some(i);
                        return GrantAction::Revoke(id);
                    },
                    None => {
                        self.save_error = Some("Rule ID is none".to_string());
                        return GrantAction::Keep;
                    },
                }
            } else {
                let rule = CasbinRule::new(
                    "g1".to_string(),
                    self.items[i].rid.clone(),
                    self.selected_user_id.clone(),
                    None,
                    String::new(),
                    String::new(),
                    String::new(),
                    self.user_id.clone(),
                );
                self.pending = Some(i);
                return GrantAction::Grant(rule);
            }
        }
        GrantAction::Keep
    }

    /// Reports how the change asked by the last key press went: when it was made, the
    /// role is marked as held or not held accordingly; else the error is shown.
    pub fn grant_done(&mut self, result: Result<(), String>)
        ensures
            final(self).selected_user_id == old(self).selected_user_id,
            final(self).user_id == old(self).user_id,
            final(self).role_table == old(self).role_table,
            final(self).pending is None,
            final(self).items@.len() == old(self).items@.len(),
            match (old(self).pending, result) {
                (Some(i), Ok(())) if i < old(self).items@.len() => {
                    &&& final(self).items@ == old(self).items@.update(
                        i as int,
                        Role { is_bound: !old(self).items@[i as int].is_bound, ..old(self).items@[i as int] },
                    )
                    &&& final(self).save_error == old(self).save_error
                },
                (_, Err(m)) => final(self).items == old(self).items && final(self).save_error == Some(m),
                _ => final(self).items == old(self).items && final(self).save_error == old(self).save_error,
            },
    {
        let pending = self.pending;
        self.pending = None;
        match result {
            Ok(()) => {
                match pending {
                    Some(i) => {
                        if i < self.items.len() {
                            let old_role = self.items.remove(i);
                            let flipped = Role {
                                rid: old_role.rid,
                                role: old_role.role,
                                is_bound: !old_role.is_bound,
                                rule_id: old_role.rule_id,
                            };
                            self.items.insert(i, flipped);
                        }
                    },
                    None => {},
                }
            },
            Err(m) => self.save_error = Some(m),
        }
    }
}

pub open spec fn role_names(data: Seq<Role>) -> Seq<Seq<char>> {
    data.map_values(|r: Role| r.role@)
}

/// The widths of the roles' columns: 4 for the mark, and the widest role name (at
/// least 4 columns).
pub fn table_len_calculator(data: &Vec<Role>) -> (r: Vec<u16>)
    ensures
        r@ == seq![4u16, widest(role_names(data@), data@.len() as int, 4) as u16],
{
    let mut names: Vec<String> = Vec::new();
    let mut i: usize = 0;
    while i < data.len()
        invariant
            i <= data.len(),
            strings_view(names@) == role_names(data@).take(i as int),
        decreases data.len() - i,
    {
        let ghost before = names@;
        names.push(data[i].role.clone());
        assert(strings_view(names@) =~= strings_view(before).push(data@[i as int].role@));
        assert(role_names(data@).take(i + 1) =~= role_names(data@).take(i as int).push(data@[i as int].role@));
        i = i + 1;
    }
    assert(role_names(data@).take(data@.len() as int) =~= role_names(data@));
    let w = widest_of(&names, 4);
    vec![4, w as u16]
}

/// The role as marked after a change was made: held if it was not, and not held if it
/// was.
pub open spec fn toggled(r: Role) -> Role {
    Role { is_bound: !r.is_bound, ..r }
}

/// Granting and then revoking a role (or the reverse), both made, gives back the same
/// list of roles.
pub proof fn law_toggle_twice(items: Seq<Role>, i: int)
    requires
        0 <= i < items.len(),
    ensures
        items.update(i, toggled(items[i])).update(i, toggled(items.update(i, toggled(items[i]))[i])) == items,
{
    assert(items.update(i, toggled(items[i])).update(i, toggled(items.update(i, toggled(items[i]))[i])) =~= items);
}

} // verus!
