//! The interactive choice of a target and of an account on it, for a user who may
//! reach several. The prompt itself runs outside the library: it shows the choices
//! that [`TargetSelection::advance`] returns and hands the reply to
//! [`TargetSelection::answer`].
use vstd::prelude::*;
use crate::models::target_secret::TargetSecretName;
use crate::errors::AppError;
use crate::text::{chars_to_string, push_all, str_chars};

verus! {

broadcast use vstd::string::group_string_axioms;

/// Where the selection stands.
#[derive(Clone, Copy, Debug, PartialEq, Eq, Structural)]
pub enum TerminalStatus {
    SelectTarget,
    SelectUser,
    Connect,
    Terminate,
}

/// What the prompt gave back.
pub enum PromptReply {
    /// A line of input.
    Line(String),
    /// Ctrl-C.
    Interrupt,
    /// Ctrl-D.
    EndOfInput,
    /// Reading failed.
    Failed,
}

/// The names of the targets among the allowed entries.
pub open spec fn target_names(allowed: Seq<TargetSecretName>) -> Set<Seq<char>> {
    Set::new(|n: Seq<char>| exists|i: int| 0 <= i < allowed.len() && (#[trigger] allowed[i]).target_name@ == n)
}

/// The accounts offered on the target named `name`.
pub open spec fn user_names(allowed: Seq<TargetSecretName>, name: Seq<char>) -> Set<Seq<char>> {
    Set::new(
        |u: Seq<char>|
            exists|i: int|
                0 <= i < allowed.len() && (#[trigger] allowed[i]).target_name@ == name
                    && allowed[i].secret_user@ == u,
    )
}

/// The entry for account `user` on target `name`.
pub open spec fn entry_for(allowed: Seq<TargetSecretName>, k: int, name: Seq<char>, user: Seq<char>) -> bool {
    0 <= k < allowed.len() && allowed[k].target_name@ == name && allowed[k].secret_user@ == user
}

/// All entries belong to one target.
pub open spec fn single_target(allowed: Seq<TargetSecretName>) -> bool {
    forall|i: int, j: int|
        0 <= i < allowed.len() && 0 <= j < allowed.len() ==> (#[trigger] allowed[i]).target_id@
            == (#[trigger] allowed[j]).target_id@
}

pub open spec fn no_duplicates(v: Seq<Seq<char>>) -> bool {
    forall|i: int, j: int| 0 <= i < j < v.len() ==> v[i] != v[j]
}

pub open spec fn string_views(v: Seq<String>) -> Seq<Seq<char>> {
    v.map_values(|s: String| s@)
}

/// The words that leave the prompt.
pub open spec fn is_quit(p: Seq<char>) -> bool {
    p == "quit"@ || p == "exit"@
}

/// The choices shown, each once: the target names, or the accounts on the chosen
/// target.
pub open spec fn choices_are(v: Seq<String>, s: Set<Seq<char>>) -> bool {
    &&& no_duplicates(string_views(v))
    &&& forall|n: Seq<char>| s.contains(n) <==> string_views(v).contains(n)
}

/// The state of one selection.
pub struct TargetSelection {
    pub allowed: Vec<TargetSecretName>,
    pub status: TerminalStatus,
    pub selected_target_name: String,
    /// The position in `allowed` of the chosen entry, once there is one.
    pub selected: Option<usize>,
}

impl TargetSelection {
    pub open spec fn wf(&self) -> bool {
        &&& self.allowed.len() > 0
        &&& (self.status == TerminalStatus::SelectUser ==> target_names(self.allowed@).contains(
            self.selected_target_name@,
        ))
        &&& (self.status == TerminalStatus::Connect ==> (self.selected matches Some(k) && entry_for(
            self.allowed@,
            k as int,
            self.selected_target_name@,
            self.allowed@[k as int].secret_user@,
        )))
    }
}

fn eq_literal(s: &String, lit: &str) -> (r: bool)
    ensures
        r == (s@ == lit@),
{
    let t = lit.to_string();
    *s == t
}

fn contains_string(v: &Vec<String>, s: &String) -> (r: bool)
    ensures
        r == string_views(v@).contains(s@),
{
    let mut i: usize = 0;
    while i < v.len()
        invariant
            i <= v.len(),
            forall|j: int| 0 <= j < i ==> v@[j]@ != s@,
        decreases v.len() - i,
    {
        if v[i] == *s {
            assert(string_views(v@)[i as int] == s@);
            return true;
        }
        i = i + 1;
    }
    proof {
        if string_views(v@).contains(s@) {
            let j = choose|j: int| 0 <= j < string_views(v@).len() && string_views(v@)[j] == s@;
            assert(v@[j]@ == s@);
        }
    }
    false
}

proof fn lemma_push_distinct(v: Seq<String>, s: String)
    requires
        no_duplicates(string_views(v)),
        !string_views(v).contains(s@),
    ensures
        no_duplicates(string_views(v.push(s))),
        forall|n: Seq<char>| #[trigger] string_views(v.push(s)).contains(n) <==> (string_views(v).contains(n) || n == s@),
{
    assert(string_views(v.push(s)) =~= string_views(v).push(s@));
    assert forall|i: int, j: int| 0 <= i < j < string_views(v.push(s)).len() implies string_views(v.push(s))[i] != string_views(v.push(s))[j] by {
        if j == v.len() {
            assert(string_views(v)[i] == string_views(v.push(s))[i]);
        }
    }
    assert forall|n: Seq<char>| #[trigger] string_views(v.push(s)).contains(n) <==> (string_views(v).contains(n) || n == s@) by {
        if string_views(v.push(s)).contains(n) {
            let k = choose|k: int| 0 <= k < string_views(v.push(s)).len() && string_views(v.push(s))[k] == n;
            if k < v.len() {
                assert(string_views(v)[k] == n);
            }
        }
        if string_views(v).contains(n) {
            let k = choose|k: int| 0 <= k < string_views(v).len() && string_views(v)[k] == n;
            assert(string_views(v.push(s))[k] == n);
        }
        if n == s@ {
            assert(string_views(v.push(s))[v.len() as int] == n);
        }
    }
}

/// The names of the targets among the entries, each once, in order of first
/// appearance.
pub fn distinct_target_names(allowed: &Vec<TargetSecretName>) -> (r: Vec<String>)
    ensures
        choices_are(r@, target_names(allowed@)),
{
    let mut r: Vec<String> = Vec::new();
    let mut i: usize = 0;
    while i < allowed.len()
        invariant
            i <= allowed.len(),
            no_duplicates(string_views(r@)),
            forall|n: Seq<char>|
                string_views(r@).contains(n) <==> exists|j: int| 0 <= j < i && (#[trigger] allowed@[j]).target_name@ == n,
        decreases allowed.len() - i,
    {
        let name = allowed[i].target_name.clone();
        if !contains_string(&r, &name) {
            proof {
                lemma_push_distinct(r@, name);
            }
            r.push(name);
        }
        proof {
            assert forall|n: Seq<char>|
                string_views(r@).contains(n) <==> exists|j: int| 0 <= j < i + 1 && (#[trigger] allowed@[j]).target_name@ == n by {
                if n == allowed@[i as int].target_name@ {
                    assert(allowed@[i as int].target_name@ == n);
                }
            }
        }
        i = i + 1;
    }
    proof {
        assert forall|n: Seq<char>| target_names(allowed@).contains(n) <==> string_views(r@).contains(n) by {
        }
    }
    r
}

/// The accounts offered on the target named `name`, each once, in order of first
/// appearance.
pub fn distinct_user_names(allowed: &Vec<TargetSecretName>, name: &String) -> (r: Vec<String>)
    ensures
        choices_are(r@, user_names(allowed@, name@)),
{
    let mut r: Vec<String> = Vec::new();
    let mut i: usize = 0;
    while i < allowed.len()
        invariant
            i <= allowed.len(),
            no_duplicates(string_views(r@)),
            forall|u: Seq<char>|
                string_views(r@).contains(u) <==> exists|j: int|
                    0 <= j < i && (#[trigger] allowed@[j]).target_name@ == name@
                        && allowed@[j].secret_user@ == u,
        decreases allowed.len() - i,
    {
        if allowed[i].target_name == *name {
            let user = allowed[i].secret_user.clone();
            if !contains_string(&r, &user) {
                proof {
                    lemma_push_distinct(r@, user);
                }
                r.push(user);
            }
        }
        proof {
            assert forall|u: Seq<char>|
                string_views(r@).contains(u) <==> exists|j: int|
                    0 <= j < i + 1 && (#[trigger] allowed@[j]).target_name@ == name@
                        && allowed@[j].secret_user@ == u by {
                if allowed@[i as int].target_name@ == name@ && u == allowed@[i as int].secret_user@ {
                    assert(allowed@[i as int].target_name@ == name@);
                }
            }
        }
        i = i + 1;
    }
    r
}

/// The position of the entry for account `user` on target `name`, if there is one.
pub fn find_entry(allowed: &Vec<TargetSecretName>, name: &String, user: &String) -> (r: Option<usize>)
    ensures
        r matches Some(k) ==> k < allowed.len() && entry_for(allowed@, k as int, name@, user@) && forall|j: int|
            0 <= j < k ==> !entry_for(allowed@, j, name@, user@),
        r is None ==> forall|k: int| 0 <= k < allowed.len() ==> !entry_for(allowed@, k, name@, user@),
{
    let mut i: usize = 0;
    while i < allowed.len()
        invariant
            i <= allowed.len(),
            forall|k: int| 0 <= k < i ==> !entry_for(allowed@, k, name@, user@),
        decreases allowed.len() - i,
    {
        if allowed[i].target_name == *name && allowed[i].secret_user == *user {
            return Some(i);
        }
        i = i + 1;
    }
    None
}

/// Whether all entries belong to one target.
pub fn is_single_target(allowed: &Vec<TargetSecretName>) -> (r: bool)
    requires
        allowed.len() > 0,
    ensures
        r == single_target(allowed@),
{
    let first = &allowed[0].target_id;
    let mut i: usize = 1;
    while i < allowed.len()
        invariant
            1 <= i <= allowed.len(),
            first@ == allowed@[0].target_id@,
            forall|j: int| 0 <= j < i ==> (#[trigger] allowed@[j]).target_id@ == first@,
        decreases allowed.len() - i,
    {
        if allowed[i].target_id != *first {
            assert(allowed@[i as int].target_id@ != allowed@[0].target_id@);
            return false;
        }
        i = i + 1;
    }
    true
}

/// The entries for the target named `name`, in their order.
pub open spec fn entries_named(allowed: Seq<TargetSecretName>, name: Seq<char>) -> Seq<TargetSecretName> {
    allowed.filter(|e: TargetSecretName| e.target_name@ == name)
}

/// Keeps the entries of the target named `name` (a session that names its target);
/// `None` when there is none, and the session is refused.
pub fn entries_for_target(allowed: Vec<TargetSecretName>, name: &String) -> (r: Option<
    Vec<TargetSecretName>,
>)
    ensures
        match r {
            Some(v) => v@ == entries_named(allowed@, name@) && v.len() > 0,
            None => entries_named(allowed@, name@).len() == 0,
        },
{
    let ghost all = allowed@;
    let mut kept: Vec<TargetSecretName> = Vec::new();
    for e in it: allowed.into_iter()
        invariant
            it.seq() == all,
            it.index() <= all.len(),
            kept@ == entries_named(all.take(it.index() as int), name@),
    {
        let ghost k = it.index() as int;
        proof {
            assert(all.take(k + 1).drop_last() =~= all.take(k));
            assert(all.take(k + 1).last() == e);
            reveal(Seq::filter);
        }
        if e.target_name == *name {
            kept.push(e);
        }
    }
    proof {
        assert(all.take(all.len() as int) =~= all);
    }
    if kept.len() == 0 {
        None
    } else {
        Some(kept)
    }
}

/// The notice shown when a chosen name is not offered: `label` then the name.
pub open spec fn missing_notice(label: Seq<char>, p: Seq<char>) -> Seq<char> {
    label + p + " doesn't exist"@
}

fn notice(label: &str, p: &String) -> (s: String)
    ensures
        s@ == missing_notice(label@, p@),
{
    let mut v = str_chars(label);
    let pv = str_chars(p.as_str());
    push_all(&mut v, &pv);
    let tail = str_chars(" doesn't exist");
    push_all(&mut v, &tail);
    chars_to_string(&v)
}

/// The set holds exactly one name.
pub open spec fn only_one(s: Set<Seq<char>>) -> bool {
    exists|n: Seq<char>| #[trigger] s.contains(n) && s == Set::<Seq<char>>::empty().insert(n)
}

/// Entry `k` is the first entry for account `user` on target `name`.
pub open spec fn first_entry(allowed: Seq<TargetSecretName>, k: int, name: Seq<char>, user: Seq<char>) -> bool {
    entry_for(allowed, k, name, user) && forall|j: int| 0 <= j < k ==> !entry_for(allowed, j, name, user)
}

/// The accounts step on target `name`: with a single account the selection connects
/// through the first entry for it; else the accounts are offered.
pub open spec fn user_step(before: TargetSelection, after: TargetSelection, choices: Option<Vec<String>>, name: Seq<char>) -> bool {
    let users = user_names(before.allowed@, name);
    if only_one(users) {
        &&& after.status == TerminalStatus::Connect
        &&& choices is None
        &&& after.selected matches Some(k) && users == Set::<Seq<char>>::empty().insert(
            before.allowed@[k as int].secret_user@,
        ) && first_entry(before.allowed@, k as int, name, before.allowed@[k as int].secret_user@)
    } else {
        &&& after.status == TerminalStatus::SelectUser
        &&& after.selected == before.selected
        &&& choices matches Some(c) && choices_are(c@, users)
    }
}

/// The steps taken without input. Choosing a target: with several target names they
/// are offered and nothing changes; with one it is chosen and the accounts step
/// follows at once. Choosing an account: the accounts step on the chosen target.
/// Otherwise (connected or ended) nothing changes.
pub open spec fn advance_spec(before: TargetSelection, after: TargetSelection, choices: Option<Vec<String>>) -> bool {
    &&& after.allowed@ == before.allowed@
    &&& if before.status == TerminalStatus::SelectTarget {
        if only_one(target_names(before.allowed@)) {
            &&& target_names(before.allowed@) == Set::<Seq<char>>::empty().insert(after.selected_target_name@)
            &&& user_step(before, after, choices, after.selected_target_name@)
        } else {
            &&& after.status == TerminalStatus::SelectTarget
            &&& after.selected_target_name == before.selected_target_name
            &&& after.selected == before.selected
            &&& choices matches Some(c) && choices_are(c@, target_names(before.allowed@))
        }
    } else if before.status == TerminalStatus::SelectUser {
        &&& after.selected_target_name == before.selected_target_name
        &&& user_step(before, after, choices, before.selected_target_name@)
    } else {
        &&& after.status == before.status
        &&& after.selected_target_name == before.selected_target_name
        &&& after.selected == before.selected
        &&& choices is None
    }
}

proof fn lemma_one_choice(v: Seq<String>, s: Set<Seq<char>>)
    requires
        choices_are(v, s),
        v.len() == 1,
    ensures
        only_one(s),
        s == Set::<Seq<char>>::empty().insert(v[0]@),
{
    assert(string_views(v)[0] == v[0]@);
    assert forall|n: Seq<char>| s.contains(n) <==> Set::<Seq<char>>::empty().insert(v[0]@).contains(n) by {
        if string_views(v).contains(n) {
            let k = choose|k: int| 0 <= k < string_views(v).len() && string_views(v)[k] == n;
        }
        if n == v[0]@ {
            assert(string_views(v).contains(n));
        }
    }
    assert(s =~= Set::<Seq<char>>::empty().insert(v[0]@));
    assert(s.contains(v[0]@));
}

proof fn lemma_not_one_choice(v: Seq<String>, s: Set<Seq<char>>)
    requires
        choices_are(v, s),
        v.len() != 1,
    ensures
        !only_one(s),
{
    if only_one(s) {
        let n = choose|n: Seq<char>| #[trigger] s.contains(n) && s == Set::<Seq<char>>::empty().insert(n);
        assert(s.len() == 1);
        lemma_choices_len(v, s);
    }
}

impl TargetSelection {
    /// A selection among `allowed`, starting with the choice of a target; refused with
    /// `NoTargetAvailable` when nothing is allowed.
    pub fn new(allowed: Vec<TargetSecretName>) -> (r: Result<Self, AppError>)
        ensures
            allowed.len() == 0 <==> r is Err,
            r matches Err(e) ==> e == AppError::NoTargetAvailable,
            r matches Ok(s) ==> {
                &&& s.wf()
                &&& s.allowed@ == allowed@
                &&& s.status == TerminalStatus::SelectTarget
                &&& s.selected_target_name@.len() == 0
                &&& s.selected is None
            },
    {
        if allowed.len() == 0 {
            return Err(AppError::NoTargetAvailable);
        }
        Ok(TargetSelection {
            allowed,
            status: TerminalStatus::SelectTarget,
            selected_target_name: String::new(),
            selected: None,
        })
    }

    /// Takes the steps that need no input: a single target is chosen at once, and so
    /// is a single account. Returns the choices to offer when input is needed, and
    /// `None` once the selection is over (`Connect` or `Terminate`).
    pub fn advance(&mut self) -> (choices: Option<Vec<String>>)
        requires
            old(self).wf(),
        ensures
            final(self).wf(),
            advance_spec(*old(self), *final(self), choices),
    {
        if self.status == TerminalStatus::SelectTarget {
            let names = distinct_target_names(&self.allowed);
            if names.len() == 1 {
                proof {
                    lemma_one_choice(names@, target_names(self.allowed@));
                }
                self.selected_target_name = names[0].clone();
                self.status = TerminalStatus::SelectUser;
            } else {
                proof {
                    lemma_not_one_choice(names@, target_names(self.allowed@));
                }
                return Some(names);
            }
        }
        if self.status == TerminalStatus::SelectUser {
            let users = distinct_user_names(&self.allowed, &self.selected_target_name);
            if users.len() == 1 {
                proof {
                    lemma_one_choice(users@, user_names(self.allowed@, self.selected_target_name@));
                    lemma_user_has_entry(self.allowed@, self.selected_target_name@, users@[0]@);
                }
                let k = find_entry(&self.allowed, &self.selected_target_name, &users[0]);
                match k {
                    Some(k) => {
                        self.selected = Some(k);
                        self.status = TerminalStatus::Connect;
                        return None;
                    },
                    None => {
                        assert(false);
                        return None;
                    },
                }
            }
            proof {
                lemma_not_one_choice(users@, user_names(self.allowed@, self.selected_target_name@));
            }
            return Some(users);
        }
        None
    }

    /// Applies the reply to the prompt for the current step. Returns the notice to
    /// show when the reply names something that is not offered.
    pub fn answer(&mut self, reply: PromptReply) -> (notice: Option<String>)
        requires
            old(self).wf(),
            old(self).status == TerminalStatus::SelectTarget || old(self).status
                == TerminalStatus::SelectUser,
        ensures
            final(self).wf(),
            final(self).allowed@ == old(self).allowed@,
            answer_spec(*old(self), reply, *final(self), notice),
    {
        let old_status = self.status;
        match reply {
            PromptReply::Line(p) => {
                if p.as_str().is_empty() {
                    return None;
                }
                if eq_literal(&p, "quit") || eq_literal(&p, "exit") {
                    self.status = TerminalStatus::Terminate;
                    return None;
                }
                if old_status == TerminalStatus::SelectTarget {
                    let names = distinct_target_names(&self.allowed);
                    if !contains_string(&names, &p) {
                        return Some(notice("Server: ", &p));
                    }
                    self.selected_target_name = p;
                    self.status = TerminalStatus::SelectUser;
                    None
                } else {
                    let users = distinct_user_names(&self.allowed, &self.selected_target_name);
                    if !contains_string(&users, &p) {
                        return Some(notice("System user: ", &p));
                    }
                    proof {
                        lemma_user_has_entry(self.allowed@, self.selected_target_name@, p@);
                    }
                    let k = find_entry(&self.allowed, &self.selected_target_name, &p);
                    match k {
                        Some(k) => {
                            self.selected = Some(k);
                            self.status = TerminalStatus::Connect;
                        },
                        None => {
                            assert(false);
                        },
                    }
                    None
                }
            },
            PromptReply::Interrupt => None,
            PromptReply::EndOfInput => {
                if old_status == TerminalStatus::SelectTarget {
                    self.status = TerminalStatus::Terminate;
                } else if is_single_target(&self.allowed) {
                    self.status = TerminalStatus::Terminate;
                } else {
                    self.status = TerminalStatus::SelectTarget;
                }
                None
            },
            PromptReply::Failed => None,
        }
    }
}

/// What a reply does. A line that is empty, Ctrl-C and a failed read change nothing;
/// `quit` or `exit` ends the selection; an offered name moves on (to the accounts
/// of the chosen target, or to the connection with the chosen account); any other
/// name gives a notice and changes nothing. Ctrl-D ends the selection while a
/// target is chosen; while an account is chosen it goes back to the targets, or ends
/// the selection if there is only one target.
pub open spec fn answer_spec(
    before: TargetSelection,
    reply: PromptReply,
    after: TargetSelection,
    notice: Option<String>,
) -> bool {
    let unchanged = after.status == before.status && after.selected_target_name
        == before.selected_target_name && after.selected == before.selected;
    match reply {
        PromptReply::Line(p) => if p@.len() == 0 {
            unchanged && notice is None
        } else if is_quit(p@) {
            after.status == TerminalStatus::Terminate && notice is None
        } else if before.status == TerminalStatus::SelectTarget {
            if target_names(before.allowed@).contains(p@) {
                after.status == TerminalStatus::SelectUser && after.selected_target_name@ == p@
                    && notice is None
            } else {
                unchanged && (notice matches Some(n) && n@ == missing_notice("Server: "@, p@))
            }
        } else {
            if user_names(before.allowed@, before.selected_target_name@).contains(p@) {
                &&& after.status == TerminalStatus::Connect
                &&& after.selected_target_name == before.selected_target_name
                &&& (after.selected matches Some(k) && first_entry(
                    before.allowed@,
                    k as int,
                    before.selected_target_name@,
                    p@,
                ))
                &&& notice is None
            } else {
                unchanged && (notice matches Some(n) && n@ == missing_notice("System user: "@, p@))
            }
        },
        PromptReply::EndOfInput => notice is None && after.selected_target_name
            == before.selected_target_name && after.selected == before.selected && after.status
            == if before.status == TerminalStatus::SelectTarget || single_target(before.allowed@) {
            TerminalStatus::Terminate
        } else {
            TerminalStatus::SelectTarget
        },
        _ => unchanged && notice is None,
    }
}

proof fn lemma_user_has_entry(allowed: Seq<TargetSecretName>, name: Seq<char>, u: Seq<char>)
    requires
        user_names(allowed, name).contains(u),
    ensures
        exists|k: int| entry_for(allowed, k, name, u),
{
    let k = choose|i: int|
        0 <= i < allowed.len() && (#[trigger] allowed[i]).target_name@ == name
            && allowed[i].secret_user@ == u;
    assert(entry_for(allowed, k, name, u));
}

proof fn lemma_choices_len(v: Seq<String>, s: Set<Seq<char>>)
    requires
        choices_are(v, s),
        s.len() == 1,
    ensures
        v.len() == 1,
{
    let views = string_views(v);
    assert(views.to_set() =~= s);
    assert(views.no_duplicates());
    views.unique_seq_to_set();
}

/// A selection that ends in `Connect` has chosen an entry of the allowed list, for
/// the chosen target: a user is never connected through a binding that was not
/// offered.
pub proof fn law_connect_is_allowed(s: TargetSelection)
    requires
        s.wf(),
        s.status == TerminalStatus::Connect,
    ensures
        s.selected matches Some(k) && k < s.allowed.len() && s.allowed@[k as int].target_name@
            == s.selected_target_name@,
{
}

/// Typing `quit` or `exit` at either prompt, the target's or the account's, ends the
/// selection without a notice.
pub proof fn law_quit_at_any_prompt(
    before: TargetSelection,
    p: String,
    after: TargetSelection,
    notice: Option<String>,
)
    requires
        before.status == TerminalStatus::SelectTarget || before.status == TerminalStatus::SelectUser,
        p@ == "quit"@ || p@ == "exit"@,
        answer_spec(before, PromptReply::Line(p), after, notice),
    ensures
        after.status == TerminalStatus::Terminate,
        notice is None,
{
    reveal_strlit("quit");
    reveal_strlit("exit");
    assert(p@.len() > 0);
}

} // verus!
