//! The permission editor of the administration console. A permission names a
//! subject, an object and an action, each picked from a table of names, and an
//! extended policy typed as text; each key press moves the focus between these four
//! fields, moves a table's cursor, picks a row, or starts and ends the editing of the
//! policy text, whose characters the text field itself keeps.
use vstd::prelude::*;
use crate::policy::{clock_reading, parse_policy_spec, parse_result_matches, ExtendPolicy, PolicyErrorKind, PolicyParseError, Timestamp};
use crate::roles::{CasbinRule, ObjectGroup, PermissionPolicy};
use crate::table::{move_ok, moved, new_table, table_move, table_move_spec, table_wf, AdminTable};
use crate::text::{chars_to_string, str_chars, trim_chars, trim_spec};
use crate::tui::{field_at, field_index, InputField, Key};

verus! {

broadcast use vstd::string::group_string_axioms;

/// Which help lines the editor shows: those of the form, of a table being picked
/// from, or of a text field.
#[derive(Clone, Copy, Debug, PartialEq, Eq, Structural)]
pub enum PermissionHelp {
    Editor,
    Table,
    Common,
}

/// Why the editor shows an error, until Enter dismisses it.
#[derive(Debug)]
pub enum PermissionError {
    /// A list of names could not be read; the reader's message.
    Load(String),
    /// The policy text is not a policy.
    Policy(PolicyParseError),
}

/// What the policy text field is asked to do with a key press.
#[derive(Clone, Copy, Debug, PartialEq, Eq, Structural)]
pub enum TextAction {
    /// Nothing.
    Keep,
    /// Type the key into the text.
    Input(Key),
    /// Empty the text.
    Clear,
    /// Start editing, the cursor at the start of the text (for `i`) or at its end.
    StartEditing { at_head: bool },
    /// Stop editing.
    StopEditing,
}

/// The answer to a key press: whether the editor is done, and what the policy text
/// field is to do.
#[derive(Clone, Copy, Debug, PartialEq, Eq, Structural)]
pub struct KeyOutcome {
    pub close: bool,
    pub text: TextAction,
}

/// The editor's state between key presses.
pub struct PermissionEditor {
    pub perm: PermissionPolicy,
    pub user_items: Vec<ObjectGroup>,
    pub target_items: Vec<ObjectGroup>,
    pub action_items: Vec<ObjectGroup>,
    pub focused_field: InputField,
    pub user_table: AdminTable,
    pub target_table: AdminTable,
    pub action_table: AdminTable,
    /// How far the form is scrolled, from 0 to 5 (its largest offset).
    pub scroll_offset: usize,
    pub show_cancel_confirmation: bool,
    /// Whether a table is being picked from, or the policy text typed.
    pub editing_mode: bool,
    pub save_error: Option<PermissionError>,
    pub help: PermissionHelp,
}

/// The largest scroll offset of the form.
pub const MAX_SCROLL_OFFSET: usize = 5;

/// The names a field picks from (none for the policy text).
pub open spec fn items_of(e: PermissionEditor, f: InputField) -> Seq<ObjectGroup> {
    match f {
        InputField::User => e.user_items@,
        InputField::Target => e.target_items@,
        InputField::Action => e.action_items@,
        InputField::ExtendPolicy => Seq::empty(),
    }
}

/// The table of a field (that of the actions for the policy text, which has none).
pub open spec fn table_of(e: PermissionEditor, f: InputField) -> AdminTable {
    match f {
        InputField::User => e.user_table,
        InputField::Target => e.target_table,
        _ => e.action_table,
    }
}

/// The editor with `t` as the table of field `f`.
pub open spec fn set_table(e: PermissionEditor, f: InputField, t: AdminTable) -> PermissionEditor {
    match f {
        InputField::User => PermissionEditor { user_table: t, ..e },
        InputField::Target => PermissionEditor { target_table: t, ..e },
        _ => PermissionEditor { action_table: t, ..e },
    }
}

/// The row a table has selected.
pub open spec fn selected_index(t: AdminTable) -> int {
    match t.selected {
        Some(i) => i as int,
        None => 0,
    }
}

/// The help lines for a focused field.
pub open spec fn focus_help(f: InputField) -> PermissionHelp {
    if f == InputField::ExtendPolicy {
        PermissionHelp::Common
    } else {
        PermissionHelp::Editor
    }
}

/// The keys that end the editing of a one-line text: Esc, Tab, Shift+Tab, the up and
/// down arrows and Enter.
pub open spec fn leaves_line(key: Key) -> bool {
    key == Key::Esc || key == Key::Tab || key == Key::BackTab || key == Key::Up || key == Key::Down
        || key == Key::Enter
}

/// Whether a one-line text field ends its editing on `key` (it types every other key).
pub fn single_line_leaves(key: Key) -> (r: bool)
    ensures
        r == leaves_line(key),
{
    key == Key::Esc || key == Key::Tab || key == Key::BackTab || key == Key::Up || key == Key::Down
        || key == Key::Enter
}

/// The permission with the row selected in the focused field's table as its subject,
/// object or action (by name and id).
pub open spec fn chosen(e: PermissionEditor) -> PermissionEditor {
    let f = e.focused_field;
    let it = items_of(e, f)[selected_index(table_of(e, f))];
    match f {
        InputField::User => PermissionEditor {
            perm: PermissionPolicy {
                user_role: it.name,
                rule: CasbinRule { v0: it.id, ..e.perm.rule },
                ..e.perm
            },
            ..e
        },
        InputField::Target => PermissionEditor {
            perm: PermissionPolicy {
                target_group: it.name,
                rule: CasbinRule { v1: it.id, ..e.perm.rule },
                ..e.perm
            },
            ..e
        },
        InputField::Action => PermissionEditor {
            perm: PermissionPolicy {
                action_group: it.name,
                rule: CasbinRule { v2: Some(it.id), ..e.perm.rule },
                ..e.perm
            },
            ..e
        },
        InputField::ExtendPolicy => e,
    }
}

/// Whether a key asks to save: Ctrl+S, with no dialog open.
pub open spec fn save_asked(e: PermissionEditor, key: Key, ctrl: bool) -> bool {
    !e.show_cancel_confirmation && e.save_error is None && ctrl && key == Key::Char('s')
}

/// A key press other than a save, on the editor `e`: the new state and the answer.
/// - With the leave dialog open, `y` leaves and `n` or Esc stays; other keys do nothing.
/// - With an error shown, Enter dismisses it; other keys do nothing.
/// - Ctrl+C opens the leave dialog.
/// - While the policy text is edited, the keys that leave a line end the editing and
///   the others are typed.
/// - While a table is picked from, Esc, `q`, Tab and Shift+Tab stop picking, the
///   table keys move its cursor, and Space or Enter pick the selected row.
/// - Else Esc or `q` open the leave dialog; Tab, `j` and Down focus the next field and
///   scroll the form one step (wrapping from the last step to the first); Shift+Tab,
///   `k` and Up the previous one; on the policy text `d` empties it and Enter, `i` or
///   `a` start editing it; on another field Enter, `e`, `i` or `a` start picking.
pub open spec fn perm_step(e: PermissionEditor, key: Key, ctrl: bool) -> (PermissionEditor, KeyOutcome) {
    let stay = KeyOutcome { close: false, text: TextAction::Keep };
    let f = e.focused_field;
    if e.show_cancel_confirmation {
        if key == Key::Char('y') || key == Key::Char('Y') {
            (e, KeyOutcome { close: true, text: TextAction::Keep })
        } else if key == Key::Char('n') || key == Key::Char('N') || key == Key::Esc {
            (PermissionEditor { show_cancel_confirmation: false, ..e }, stay)
        } else {
            (e, stay)
        }
    } else if e.save_error is Some {
        if key == Key::Enter {
            (PermissionEditor { save_error: None, ..e }, stay)
        } else {
            (e, stay)
        }
    } else if ctrl && key == Key::Char('c') {
        (PermissionEditor { show_cancel_confirmation: true, ..e }, stay)
    } else if e.editing_mode {
        if f == InputField::ExtendPolicy {
            if leaves_line(key) {
                (
                    PermissionEditor { editing_mode: false, ..e },
                    KeyOutcome { close: false, text: TextAction::StopEditing },
                )
            } else {
                (e, KeyOutcome { close: false, text: TextAction::Input(key) })
            }
        } else if key == Key::Esc || key == Key::Char('q') || key == Key::Tab || key == Key::BackTab {
            (PermissionEditor { editing_mode: false, help: PermissionHelp::Editor, ..e }, stay)
        } else if table_move_spec(key, ctrl) is Some {
            let m = table_move_spec(key, ctrl)->0;
            (set_table(e, f, moved(table_of(e, f), m, items_of(e, f).len() as int)), stay)
        } else if key == Key::Char(' ') || key == Key::Enter {
            (chosen(PermissionEditor { editing_mode: false, help: PermissionHelp::Editor, ..e }), stay)
        } else {
            (e, stay)
        }
    } else if key == Key::Esc || key == Key::Char('q') {
        (PermissionEditor { show_cancel_confirmation: true, ..e }, stay)
    } else if key == Key::Tab || key == Key::Char('j') || key == Key::Down {
        let g = field_at(field_index(f) + 1);
        (
            PermissionEditor {
                editing_mode: false,
                focused_field: g,
                help: focus_help(g),
                scroll_offset: if e.scroll_offset == MAX_SCROLL_OFFSET {
                    0
                } else {
                    (e.scroll_offset + 1) as usize
                },
                ..e
            },
            stay,
        )
    } else if key == Key::BackTab || key == Key::Char('k') || key == Key::Up {
        let g = field_at(field_index(f) + 3);
        (
            PermissionEditor {
                editing_mode: false,
                focused_field: g,
                help: focus_help(g),
                scroll_offset: if e.scroll_offset == 0 {
                    MAX_SCROLL_OFFSET
                } else {
                    (e.scroll_offset - 1) as usize
                },
                ..e
            },
            stay,
        )
    } else if key == Key::Char('d') && f == InputField::ExtendPolicy {
        (e, KeyOutcome { close: false, text: TextAction::Clear })
    } else if (key == Key::Enter || key == Key::Char('i') || key == Key::Char('a')) && f
        == InputField::ExtendPolicy {
        (
            PermissionEditor { editing_mode: true, ..e },
            KeyOutcome {
                close: false,
                text: TextAction::StartEditing { at_head: key == Key::Char('i') },
            },
        )
    } else if (key == Key::Enter || key == Key::Char('e') || key == Key::Char('i') || key == Key::Char(
        'a',
    )) && f != InputField::ExtendPolicy {
        (PermissionEditor { editing_mode: true, help: PermissionHelp::Table, ..e }, stay)
    } else {
        (e, stay)
    }
}

/// Whether a key can be handled: a table move must be possible (see [`move_ok`]), and
/// a pick needs the selected row to exist.
pub open spec fn key_ok(e: PermissionEditor, key: Key, ctrl: bool) -> bool {
    let f = e.focused_field;
    let t = table_of(e, f);
    let n = items_of(e, f).len() as int;
    (!e.show_cancel_confirmation && e.save_error is None && !(ctrl && (key == Key::Char('s') || key
        == Key::Char('c'))) && e.editing_mode && f != InputField::ExtendPolicy && !(key == Key::Esc
        || key == Key::Char('q') || key == Key::Tab || key == Key::BackTab)) ==> {
        &&& (table_move_spec(key, ctrl) matches Some(m) ==> move_ok(t, m, n))
        &&& ((key == Key::Char(' ') || key == Key::Enter) ==> selected_index(t) < n)
    }
}

/// The policy text was accepted, for some reading of the clock.
pub open spec fn policy_accepted(s: Seq<char>) -> bool {
    exists|now: Timestamp| clock_reading(now) && (#[trigger] parse_policy_spec(s, now)) is Ok
}

/// The policy text was refused with `e`, for some reading of the clock.
pub open spec fn policy_refused(s: Seq<char>, e: PolicyParseError) -> bool {
    exists|now: Timestamp| clock_reading(now) && #[trigger] parse_policy_spec(s, now) == Err::<ExtendPolicy, PolicyErrorKind>(e.kind())
}

impl PermissionEditor {
    /// The tables stay within their lists, and the form's scroll offset within its
    /// range.
    pub open spec fn wf(self) -> bool {
        &&& table_wf(self.user_table, self.user_items@.len() as int)
        &&& table_wf(self.target_table, self.target_items@.len() as int)
        &&& table_wf(self.action_table, self.action_items@.len() as int)
        &&& self.scroll_offset <= MAX_SCROLL_OFFSET
    }

    /// An editor for `perm` over the names it can pick, the subject's field focused,
    /// each table at its first row; `load_error` is the message of a list that could
    /// not be read, shown first.
    pub fn new(
        perm: PermissionPolicy,
        user_items: Vec<ObjectGroup>,
        target_items: Vec<ObjectGroup>,
        action_items: Vec<ObjectGroup>,
        load_error: Option<String>,
    ) -> (e: Self)
        requires
            user_items@.len() <= usize::MAX / 32,
            target_items@.len() <= usize::MAX / 32,
            action_items@.len() <= usize::MAX / 32,
        ensures
            e.wf(),
            e.perm == perm,
            e.user_items == user_items,
            e.target_items == target_items,
            e.action_items == action_items,
            e.focused_field == InputField::User,
            e.user_table == new_table(user_items@.len() as int),
            e.target_table == new_table(target_items@.len() as int),
            e.action_table == new_table(action_items@.len() as int),
            e.scroll_offset == 0,
            !e.show_cancel_confirmation,
            !e.editing_mode,
            e.save_error == match load_error {
                Some(m) => Some(PermissionError::Load(m)),
                None => None,
            },
            e.help == PermissionHelp::Editor,
    {
        let user_table = AdminTable::new(user_items.len());
        let target_table = AdminTable::new(target_items.len());
        let action_table = AdminTable::new(action_items.len());
        let save_error = match load_error {
            Some(m) => Some(PermissionError::Load(m)),
            None => None,
        };
        PermissionEditor {
            perm,
            user_items,
            target_items,
            action_items,
            focused_field: InputField::User,
            user_table,
            target_table,
            action_table,
            scroll_offset: 0,
            show_cancel_confirmation: false,
            editing_mode: false,
            save_error,
            help: PermissionHelp::Editor,
        }
    }

    /// Handles a key press (`ctrl` tells whether Control was held); `policy_text` is
    /// what the policy text field holds. See [`perm_step`]. Ctrl+S stores the trimmed
    /// policy text in the permission and checks it: when it is a policy the editor is
    /// done, else the error is shown.
    pub fn handle_key_event(&mut self, key: Key, ctrl: bool, policy_text: &str) -> (r: KeyOutcome)
        requires
            old(self).wf(),
            key_ok(*old(self), key, ctrl),
        ensures
            final(self).wf(),
            !save_asked(*old(self), key, ctrl) ==> (*final(self), r) == perm_step(*old(self), key, ctrl),
            save_asked(*old(self), key, ctrl) ==> {
                &&& *final(self) == (PermissionEditor {
                    perm: PermissionPolicy {
                        rule: CasbinRule { v3: final(self).perm.rule.v3, ..old(self).perm.rule },
                        ..old(self).perm
                    },
                    save_error: final(self).save_error,
                    ..*old(self)
                })
                &&& final(self).perm.rule.v3@ == trim_spec(policy_text@)
                &&& r == (KeyOutcome { close: final(self).save_error is None, text: TextAction::Keep })
                &&& match final(self).save_error {
                    None => policy_accepted(final(self).perm.rule.v3@),
                    Some(PermissionError::Policy(pe)) => policy_refused(final(self).perm.rule.v3@, pe),
                    Some(PermissionError::Load(_)) => false,
                }
            },
    {
        let stay = KeyOutcome { close: false, text: TextAction::Keep };
        if self.show_cancel_confirmation {
            if key == Key::Char('y') || key == Key::Char('Y') {
                return KeyOutcome { close: true, text: TextAction::Keep };
            } else if key == Key::Char('n') || key == Key::Char('N') || key == Key::Esc {
                self.show_cancel_confirmation = false;
            }
            return stay;
        }
        if self.save_error.is_some() {
            if key == Key::Enter {
                self.save_error = None;
            }
            return stay;
        }
        if ctrl && key == Key::Char('s') {
            return self.verify_permission(policy_text);
        }
        if ctrl && key == Key::Char('c') {
            self.show_cancel_confirmation = true;
            return stay;
        }
        let f = self.focused_field;
        if self.editing_mode {
            if f == InputField::ExtendPolicy {
                if single_line_leaves(key) {
                    self.editing_mode = false;
                    return KeyOutcome { close: false, text: TextAction::StopEditing };
                }
                return KeyOutcome { close: false, text: TextAction::Input(key) };
            }
            if key == Key::Esc || key == Key::Char('q') || key == Key::Tab || key == Key::BackTab {
                self.editing_mode = false;
                self.help = PermissionHelp::Editor;
                return stay;
            }
            match table_move(key, ctrl) {
                Some(m) => {
                    match f {
                        InputField::User => {
                            let n = self.user_items.len();
                            self.user_table.apply_move(m, n);
                        },
                        InputField::Target => {
                            let n = self.target_items.len();
                            self.target_table.apply_move(m, n);
                        },
                        _ => {
                            let n = self.action_items.len();
                            self.action_table.apply_move(m, n);
                        },
                    }
                    return stay;
                },
                None => {},
            }
            if key == Key::Char(' ') || key == Key::Enter {
                self.editing_mode = false;
                self.help = PermissionHelp::Editor;
                self.pick();
            }
            return stay;
        }
        if key == Key::Esc || key == Key::Char('q') {
            self.show_cancel_confirmation = true;
        } else if key == Key::Tab || key == Key::Char('j') || key == Key::Down {
            self.editing_mode = false;
            let g = f.next();
            self.focused_field = g;
            self.help = if g == InputField::ExtendPolicy {
                PermissionHelp::Common
            } else {
                PermissionHelp::Editor
            };
            self.scroll_offset = if self.scroll_offset == MAX_SCROLL_OFFSET {
                0
            } else {
                self.scroll_offset + 1
            };
        } else if key == Key::BackTab || key == Key::Char('k') || key == Key::Up {
            self.editing_mode = false;
            let g = f.previous();
            self.focused_field = g;
            self.help = if g == InputField::ExtendPolicy {
                PermissionHelp::Common
            } else {
                PermissionHelp::Editor
            };
            self.scroll_offset = if self.scroll_offset == 0 {
                MAX_SCROLL_OFFSET
            } else {
                self.scroll_offset - 1
            };
        } else if key == Key::Char('d') && f == InputField::ExtendPolicy {
            return KeyOutcome { close: false, text: TextAction::Clear };
        } else if (key == Key::Enter || key == Key::Char('i') || key == Key::Char('a')) && f
            == InputField::ExtendPolicy {
            self.editing_mode = true;
            return KeyOutcome {
                close: false,
                text: TextAction::StartEditing { at_head: key == Key::Char('i') },
            };
        } else if (key == Key::Enter || key == Key::Char('e') || key == Key::Char('i') || key
            == Key::Char('a')) && f != InputField::ExtendPolicy {
            self.editing_mode = true;
            self.help = PermissionHelp::Table;
        }
        stay
    }

    /// Picks the row selected in the focused field's table.
    fn pick(&mut self)
        requires
            old(self).focused_field != InputField::ExtendPolicy,
            selected_index(table_of(*old(self), old(self).focused_field)) < items_of(
                *old(self),
                old(self).focused_field,
            ).len(),
        ensures
            *final(self) == chosen(*old(self)),
    {
        match self.focused_field {
            InputField::User => {
                let i = match self.user_table.selected {
                    Some(i) => i,
                    None => 0,
                };
                let name = self.user_items[i].name.clone();
                let id = self.user_items[i].id.clone();
                self.perm.user_role = name;
                self.perm.rule.v0 = id;
            },
            InputField::Target => {
                let i = match self.target_table.selected {
                    Some(i) => i,
                    None => 0,
                };
                let name = self.target_items[i].name.clone();
                let id = self.target_items[i].id.clone();
                self.perm.target_group = name;
                self.perm.rule.v1 = id;
            },
            InputField::Action => {
                let i = match self.action_table.selected {
                    Some(i) => i,
                    None => 0,
                };
                let name = self.action_items[i].name.clone();
                let id = self.action_items[i].id.clone();
                self.perm.action_group = name;
                self.perm.rule.v2 = Some(id);
            },
            InputField::ExtendPolicy => {},
        }
    }

    /// Stores the trimmed policy text in the permission and checks it.
    fn verify_permission(&mut self, policy_text: &str) -> (r: KeyOutcome)
        requires
            old(self).save_error is None,
        ensures
            *final(self) == (PermissionEditor {
                perm: PermissionPolicy {
                    rule: CasbinRule { v3: final(self).perm.rule.v3, ..old(self).perm.rule },
                    ..old(self).perm
                },
                save_error: final(self).save_error,
                ..*old(self)
            }),
            final(self).perm.rule.v3@ == trim_spec(policy_text@),
            r == (KeyOutcome { close: final(self).save_error is None, text: TextAction::Keep }),
            match final(self).save_error {
                None => policy_accepted(final(self).perm.rule.v3@),
                Some(PermissionError::Policy(pe)) => policy_refused(final(self).perm.rule.v3@, pe),
                Some(PermissionError::Load(_)) => false,
            },
    {
        self.perm.rule.v3 = chars_to_string(&trim_chars(&str_chars(policy_text)));
        let parsed = ExtendPolicy::from_str(self.perm.rule.v3.as_str());
        let ghost s = self.perm.rule.v3@;
        match parsed {
            Ok(_) => {
                proof {
                    let now = choose|now: Timestamp|
                        clock_reading(now) && #[trigger] parse_result_matches(parsed, parse_policy_spec(s, now));
                    assert(parse_policy_spec(s, now) is Ok);
                }
                KeyOutcome { close: true, text: TextAction::Keep }
            },
            Err(e) => {
                proof {
                    let now = choose|now: Timestamp|
                        clock_reading(now) && #[trigger] parse_result_matches(parsed, parse_policy_spec(s, now));
                    assert(parse_policy_spec(s, now) == Err::<ExtendPolicy, PolicyErrorKind>(e.kind()));
                }
                self.save_error = Some(PermissionError::Policy(e));
                KeyOutcome { close: false, text: TextAction::Keep }
            },
        }
    }
}

/// Focusing the next field and then the previous one (Tab, then Shift+Tab) gives back
/// the same editor, but for the help lines, which then are those of the focused field.
pub proof fn law_focus_round_trip(e: PermissionEditor)
    requires
        e.wf(),
        !e.show_cancel_confirmation,
        e.save_error is None,
        !e.editing_mode,
    ensures
        perm_step(perm_step(e, Key::Tab, false).0, Key::BackTab, false).0 == (PermissionEditor {
            help: focus_help(e.focused_field),
            ..e
        }),
{
    crate::tui::law_field_next_previous(e.focused_field);
}

/// Asking to leave (Esc) and answering no (`n`) gives back the same editor.
pub proof fn law_leave_declined(e: PermissionEditor)
    requires
        !e.show_cancel_confirmation,
        e.save_error is None,
        !e.editing_mode,
    ensures
        perm_step(e, Key::Esc, false).0.show_cancel_confirmation,
        perm_step(perm_step(e, Key::Esc, false).0, Key::Char('n'), false).0 == e,
{
}

/// Only a `y` in the leave dialog closes the editor without saving: no other key press
/// does.
pub proof fn law_close_needs_confirmation(e: PermissionEditor, key: Key, ctrl: bool)
    ensures
        perm_step(e, key, ctrl).1.close ==> e.show_cancel_confirmation && (key == Key::Char('y') || key
            == Key::Char('Y')),
{
}

/// Picking a row (Space) while a table is picked from changes only the permission's
/// name and id on that side, ends the picking, and leaves the tables and the focus as
/// they were.
pub proof fn law_pick_changes_one_side(e: PermissionEditor)
    requires
        !e.show_cancel_confirmation,
        e.save_error is None,
        e.editing_mode,
        e.focused_field != InputField::ExtendPolicy,
    ensures
        ({
            let e2 = perm_step(e, Key::Char(' '), false).0;
            let it = items_of(e, e.focused_field)[selected_index(table_of(e, e.focused_field))];
            &&& !e2.editing_mode
            &&& e2.focused_field == e.focused_field
            &&& e2.user_table == e.user_table && e2.target_table == e.target_table && e2.action_table == e.action_table
            &&& e2.perm.rule.v3 == e.perm.rule.v3
            &&& e.focused_field == InputField::User ==> e2.perm.user_role == it.name && e2.perm.rule.v0 == it.id
                && e2.perm.rule.v1 == e.perm.rule.v1 && e2.perm.rule.v2 == e.perm.rule.v2
            &&& e.focused_field == InputField::Target ==> e2.perm.target_group == it.name && e2.perm.rule.v1 == it.id
                && e2.perm.rule.v0 == e.perm.rule.v0 && e2.perm.rule.v2 == e.perm.rule.v2
            &&& e.focused_field == InputField::Action ==> e2.perm.action_group == it.name && e2.perm.rule.v2 == Some(it.id)
                && e2.perm.rule.v0 == e.perm.rule.v0 && e2.perm.rule.v1 == e.perm.rule.v1
        }),
{
}

} // verus!
