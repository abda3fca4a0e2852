//! The records listed on each tab of the management screen, with their column
//! headers and column widths.
use vstd::prelude::*;
use crate::common::{shortenable, shortened};
use crate::models::target::Target;
use crate::models::target_secret::Secret;
use crate::models::user::{same_user, strings_view, User, UserWithRole};
use crate::roles::{CasbinName, PermissionPolicy};
use crate::table::{display_width, widest};
use crate::text::{str_chars, utf8_len, utf8_len_of};
use crate::tui::SelectedTab;

verus! {

broadcast use vstd::string::group_string_axioms;

/// The records of one tab.
pub enum TableData {
    Users(Vec<UserWithRole>),
    Targets(Vec<Target>),
    Secrets(Vec<Secret>),
    CasbinNames(Vec<CasbinName>),
    Permissions(Vec<PermissionPolicy>),
}

pub open spec fn str_views(v: Seq<&str>) -> Seq<Seq<char>> {
    v.map_values(|s: &str| s@)
}

/// The column headers of each tab.
pub open spec fn header_spec(t: TableData) -> Seq<Seq<char>> {
    match t {
        TableData::Users(_) => seq![
            "username"@,
            "email"@,
            "password_hash"@,
            "authorized_keys"@,
            "force_init_pass"@,
            "is_active"@,
            "role"@,
        ],
        TableData::Targets(_) => seq![
            "name"@,
            "hostname"@,
            "port"@,
            "server_public_key"@,
            "description"@,
            "is_active"@,
        ],
        TableData::Secrets(_) => seq![
            "name"@,
            "user"@,
            "password"@,
            "private_key"@,
            "public_key"@,
            "is_active"@,
        ],
        TableData::CasbinNames(_) => seq!["Type"@, "name"@, "is_active"@],
        TableData::Permissions(_) => seq![
            "user/role"@,
            "target/group"@,
            "action/group"@,
            "extend policy"@,
        ],
    }
}

/// The number of records.
pub open spec fn data_len(t: TableData) -> nat {
    match t {
        TableData::Users(d) => d@.len(),
        TableData::Targets(d) => d@.len(),
        TableData::Secrets(d) => d@.len(),
        TableData::CasbinNames(d) => d@.len(),
        TableData::Permissions(d) => d@.len(),
    }
}

/// The longest of the first `n` texts in bytes, or `floor` if that is longer.
pub open spec fn longest(texts: Seq<Seq<char>>, n: int, floor: nat) -> nat
    decreases n,
{
    if n <= 0 {
        floor
    } else {
        let w = utf8_len(texts[n - 1]);
        let rest = longest(texts, n - 1, floor);
        if w > rest {
            w
        } else {
            rest
        }
    }
}

/// A column cut to the 16 bits of a terminal width.
pub open spec fn col(w: nat) -> u16 {
    w as u16
}

/// The texts of a column, record by record.
pub open spec fn user_col(d: Seq<UserWithRole>, k: int) -> Seq<Seq<char>> {
    d.map_values(
        |u: UserWithRole|
            if k == 0 {
                u.user.username@
            } else if k == 1 {
                match u.user.email {
                    Some(e) => e@,
                    None => Seq::<char>::empty(),
                }
            } else {
                u.role@
            },
    )
}

pub open spec fn target_col(d: Seq<Target>, k: int) -> Seq<Seq<char>> {
    d.map_values(
        |t: Target|
            if k == 0 {
                t.name@
            } else if k == 1 {
                t.hostname@
            } else if k == 2 {
                shortened(t.server_public_key@)
            } else {
                match t.description {
                    Some(e) => e@,
                    None => Seq::<char>::empty(),
                }
            },
    )
}

pub open spec fn secret_col(d: Seq<Secret>, k: int) -> Seq<Seq<char>> {
    d.map_values(
        |s: Secret|
            if k == 0 {
                s.name@
            } else if k == 1 {
                s.user@
            } else {
                match s.public_key {
                    Some(p) => shortened(p@),
                    None => Seq::<char>::empty(),
                }
            },
    )
}

pub open spec fn name_col(d: Seq<CasbinName>, k: int) -> Seq<Seq<char>> {
    d.map_values(|n: CasbinName| if k == 0 {
        n.ptype@
    } else {
        n.name@
    })
}

pub open spec fn permission_col(d: Seq<PermissionPolicy>, k: int) -> Seq<Seq<char>> {
    d.map_values(
        |p: PermissionPolicy|
            if k == 0 {
                p.user_role@
            } else if k == 1 {
                p.target_group@
            } else if k == 2 {
                p.action_group@
            } else {
                p.rule.v3@
            },
    )
}

/// The widths of the columns of each tab: a column of names is as wide as its widest
/// text on a terminal, a column of keys or policy texts as long as its longest text
/// in bytes, each at least as wide as its header; flags and masked values have fixed
/// widths.
pub open spec fn widths_spec(t: TableData) -> Seq<u16> {
    match t {
        TableData::Users(d) => {
            let n = d@.len() as int;
            seq![
                widest(user_col(d@, 0), n, 8) as u16,
                widest(user_col(d@, 1), n, 5) as u16,
                13u16,
                15u16,
                15u16,
                9u16,
                widest(user_col(d@, 2), n, 4) as u16,
            ]
        },
        TableData::Targets(d) => {
            let n = d@.len() as int;
            seq![
                widest(target_col(d@, 0), n, 4) as u16,
                widest(target_col(d@, 1), n, 8) as u16,
                5u16,
                col(longest(target_col(d@, 2), n, 17)),
                widest(target_col(d@, 3), n, 11) as u16,
                9u16,
            ]
        },
        TableData::Secrets(d) => {
            let n = d@.len() as int;
            seq![
                widest(secret_col(d@, 0), n, 4) as u16,
                widest(secret_col(d@, 1), n, 4) as u16,
                8u16,
                11u16,
                col(longest(secret_col(d@, 2), n, 10)),
                9u16,
            ]
        },
        TableData::CasbinNames(d) => {
            let n = d@.len() as int;
            seq![col(longest(name_col(d@, 0), n, 6)), widest(name_col(d@, 1), n, 4) as u16, 9u16]
        },
        TableData::Permissions(d) => {
            let n = d@.len() as int;
            seq![
                widest(permission_col(d@, 0), n, 9) as u16,
                widest(permission_col(d@, 1), n, 12) as u16,
                widest(permission_col(d@, 2), n, 12) as u16,
                col(longest(permission_col(d@, 3), n, 13)),
            ]
        },
    }
}

/// The keys of the listed records can be shortened, and the byte lengths of the
/// measured texts fit a `usize`.
pub open spec fn can_measure(t: TableData) -> bool {
    match t {
        TableData::Targets(d) => forall|i: int|
            0 <= i < d@.len() ==> shortenable((#[trigger] d@[i]).server_public_key@)
                && utf8_len(shortened(d@[i].server_public_key@)) <= usize::MAX,
        TableData::Secrets(d) => forall|i: int|
            0 <= i < d@.len() ==> ((#[trigger] d@[i]).public_key matches Some(p) ==> shortenable(p@)
                && utf8_len(shortened(p@)) <= usize::MAX),
        TableData::CasbinNames(d) => forall|i: int|
            0 <= i < d@.len() ==> utf8_len((#[trigger] d@[i]).ptype@) <= usize::MAX,
        TableData::Permissions(d) => forall|i: int|
            0 <= i < d@.len() ==> utf8_len((#[trigger] d@[i]).rule.v3@) <= usize::MAX,
        TableData::Users(_) => true,
    }
}

/// The widest of the texts on a terminal, at least `floor`.
pub(crate) fn widest_of(texts: &Vec<String>, floor: usize) -> (w: usize)
    ensures
        w == widest(strings_view(texts@), texts@.len() as int, floor),
{
    let mut w: usize = floor;
    let mut i: usize = 0;
    while i < texts.len()
        invariant
            i <= texts.len(),
            w == widest(strings_view(texts@), i as int, floor),
        decreases texts.len() - i,
    {
        let x = display_width(texts[i].as_str());
        assert(strings_view(texts@)[i as int] == texts@[i as int]@);
        if x > w {
            w = x;
        }
        i = i + 1;
    }
    w
}

/// The longest of the texts in bytes, at least `floor`.
pub(crate) fn longest_of(texts: &Vec<String>, floor: usize) -> (w: usize)
    requires
        forall|i: int| 0 <= i < texts@.len() ==> utf8_len((#[trigger] texts@[i])@) <= usize::MAX,
    ensures
        w == longest(strings_view(texts@), texts@.len() as int, floor as nat),
{
    let mut w: usize = floor;
    let mut i: usize = 0;
    while i < texts.len()
        invariant
            i <= texts.len(),
            forall|j: int| 0 <= j < texts@.len() ==> utf8_len((#[trigger] texts@[j])@) <= usize::MAX,
            w == longest(strings_view(texts@), i as int, floor as nat),
        decreases texts.len() - i,
    {
        let x = utf8_len_of(&str_chars(texts[i].as_str()));
        assert(strings_view(texts@)[i as int] == texts@[i as int]@);
        if x > w {
            w = x;
        }
        i = i + 1;
    }
    w
}

/// The tabs whose records can be deleted from the list.
pub open spec fn deletable_tab(tab: SelectedTab) -> bool {
    tab == SelectedTab::Users || tab == SelectedTab::Targets || tab == SelectedTab::Secrets || tab
        == SelectedTab::Permissions || tab == SelectedTab::CasbinNames
}

/// The records of `t` are those of the tab.
pub open spec fn lists_tab(t: TableData, tab: SelectedTab) -> bool {
    match t {
        TableData::Users(_) => tab == SelectedTab::Users,
        TableData::Targets(_) => tab == SelectedTab::Targets,
        TableData::Secrets(_) => tab == SelectedTab::Secrets,
        TableData::CasbinNames(_) => tab == SelectedTab::CasbinNames,
        TableData::Permissions(_) => tab == SelectedTab::Permissions,
    }
}

impl TableData {
    /// The target at row `i`, when the targets are listed and there is such a row.
    pub fn get_target(&self, i: usize) -> (r: Option<Target>)
        ensures
            r == match self {
                TableData::Targets(d) => if i < d@.len() {
                    Some(d@[i as int])
                } else {
                    None
                },
                _ => None,
            },
    {
        match self {
            TableData::Targets(d) => if i < d.len() {
                Some(d[i].duplicate())
            } else {
                None
            },
            _ => None,
        }
    }

    /// The user at row `i`, when the users are listed and there is such a row.
    pub fn get_user(&self, i: usize) -> (r: Option<User>)
        ensures
            match self {
                TableData::Users(d) => if i < d@.len() {
                    r matches Some(u) && same_user(u, d@[i as int].user)
                } else {
                    r is None
                },
                _ => r is None,
            },
    {
        match self {
            TableData::Users(d) => if i < d.len() {
                Some(d[i].user.duplicate())
            } else {
                None
            },
            _ => None,
        }
    }

    /// The secret at row `i`, when the secrets are listed and there is such a row.
    pub fn get_secret(&self, i: usize) -> (r: Option<Secret>)
        ensures
            r == match self {
                TableData::Secrets(d) => if i < d@.len() {
                    Some(d@[i as int])
                } else {
                    None
                },
                _ => None,
            },
    {
        match self {
            TableData::Secrets(d) => if i < d.len() {
                Some(d[i].duplicate())
            } else {
                None
            },
            _ => None,
        }
    }

    /// The permission at row `i`, when the permissions are listed and there is such a row.
    pub fn get_permission(&self, i: usize) -> (r: Option<PermissionPolicy>)
        ensures
            r == match self {
                TableData::Permissions(d) => if i < d@.len() {
                    Some(d@[i as int])
                } else {
                    None
                },
                _ => None,
            },
    {
        match self {
            TableData::Permissions(d) => if i < d.len() {
                Some(d[i].duplicate())
            } else {
                None
            },
            _ => None,
        }
    }

    /// The group name at row `i`, when the names are listed and there is such a row.
    pub fn get_casbin_name(&self, i: usize) -> (r: Option<CasbinName>)
        ensures
            r == match self {
                TableData::CasbinNames(d) => if i < d@.len() {
                    Some(d@[i as int])
                } else {
                    None
                },
                _ => None,
            },
    {
        match self {
            TableData::CasbinNames(d) => if i < d.len() {
                Some(d[i].duplicate())
            } else {
                None
            },
            _ => None,
        }
    }
}

impl TableData {
    /// Whether row `idx` of tab `tab` holds a record that can be deleted: the records
    /// are those of the tab and there is such a row.
    pub fn could_delete(&self, tab: SelectedTab, idx: usize) -> (r: bool)
        requires
            deletable_tab(tab),
        ensures
            r == (lists_tab(*self, tab) && idx < data_len(*self)),
    {
        let same = match self {
            TableData::Users(_) => tab == SelectedTab::Users,
            TableData::Targets(_) => tab == SelectedTab::Targets,
            TableData::Secrets(_) => tab == SelectedTab::Secrets,
            TableData::CasbinNames(_) => tab == SelectedTab::CasbinNames,
            TableData::Permissions(_) => tab == SelectedTab::Permissions,
        };
        same && idx < self.len()
    }

    /// The column headers.
    pub fn header(&self) -> (h: Vec<&'static str>)
        ensures
            str_views(h@) == header_spec(*self),
    {
        let h: Vec<&'static str> = match self {
            TableData::Users(_) => vec![
                "username",
                "email",
                "password_hash",
                "authorized_keys",
                "force_init_pass",
                "is_active",
                "role",
            ],
            TableData::Targets(_) => vec![
                "name",
                "hostname",
                "port",
                "server_public_key",
                "description",
                "is_active",
            ],
            TableData::Secrets(_) => vec![
                "name",
                "user",
                "password",
                "private_key",
                "public_key",
                "is_active",
            ],
            TableData::CasbinNames(_) => vec!["Type", "name", "is_active"],
            TableData::Permissions(_) => vec![
                "user/role",
                "target/group",
                "action/group",
                "extend policy",
            ],
        };
        assert(str_views(h@) =~= header_spec(*self));
        h
    }

    /// The number of records.
    pub fn len(&self) -> (n: usize)
        ensures
            n == data_len(*self),
    {
        match self {
            TableData::Users(d) => d.len(),
            TableData::Targets(d) => d.len(),
            TableData::Secrets(d) => d.len(),
            TableData::CasbinNames(d) => d.len(),
            TableData::Permissions(d) => d.len(),
        }
    }

    /// The width of each column (as `Constraint::Length` takes it).
    pub fn constraint_len_calculator(&self) -> (w: Vec<u16>)
        requires
            can_measure(*self),
        ensures
            w@ == widths_spec(*self),
    {
        match self {
            TableData::Users(d) => {
                let mut c0: Vec<String> = Vec::new();
                let mut c1: Vec<String> = Vec::new();
                let mut c2: Vec<String> = Vec::new();
                let mut i: usize = 0;
                while i < d.len()
                    invariant
                        i <= d.len(),
                        c0@.len() == i && c1@.len() == i && c2@.len() == i,
                        strings_view(c0@) =~= user_col(d@, 0).take(i as int),
                        strings_view(c1@) =~= user_col(d@, 1).take(i as int),
                        strings_view(c2@) =~= user_col(d@, 2).take(i as int),
                    decreases d.len() - i,
                {
                    c0.push(d[i].user.username.clone());
                    c1.push(
                        match &d[i].user.email {
                            Some(e) => e.clone(),
                            None => String::new(),
                        },
                    );
                    c2.push(d[i].role.clone());
                    i = i + 1;
                }
                proof {
                    lemma_take_all(user_col(d@, 0));
                    lemma_take_all(user_col(d@, 1));
                    lemma_take_all(user_col(d@, 2));
                }
                let w0 = widest_of(&c0, 8);
                let w1 = widest_of(&c1, 5);
                let w2 = widest_of(&c2, 4);
                vec![w0 as u16, w1 as u16, 13, 15, 15, 9, w2 as u16]
            },
            TableData::Targets(d) => {
                let mut c0: Vec<String> = Vec::new();
                let mut c1: Vec<String> = Vec::new();
                let mut c2: Vec<String> = Vec::new();
                let mut c3: Vec<String> = Vec::new();
                let mut i: usize = 0;
                while i < d.len()
                    invariant
                        i <= d.len(),
                        can_measure(*self),
                        *self == TableData::Targets(*d),
                        c0@.len() == i && c1@.len() == i && c2@.len() == i && c3@.len() == i,
                        strings_view(c0@) =~= target_col(d@, 0).take(i as int),
                        strings_view(c1@) =~= target_col(d@, 1).take(i as int),
                        strings_view(c2@) =~= target_col(d@, 2).take(i as int),
                        strings_view(c3@) =~= target_col(d@, 3).take(i as int),
                    decreases d.len() - i,
                {
                    assert(shortenable(d@[i as int].server_public_key@));
                    c0.push(d[i].name.clone());
                    c1.push(d[i].hostname.clone());
                    c2.push(d[i].print_server_key());
                    c3.push(
                        match &d[i].description {
                            Some(e) => e.clone(),
                            None => String::new(),
                        },
                    );
                    i = i + 1;
                }
                proof {
                    lemma_take_all(target_col(d@, 0));
                    lemma_take_all(target_col(d@, 1));
                    lemma_take_all(target_col(d@, 2));
                    lemma_take_all(target_col(d@, 3));
                    assert forall|j: int| 0 <= j < c2@.len() implies utf8_len((#[trigger] c2@[j])@)
                        <= usize::MAX by {
                        assert(strings_view(c2@)[j] == c2@[j]@);
                        assert(target_col(d@, 2)[j] == shortened(d@[j].server_public_key@));
                    }
                }
                let w0 = widest_of(&c0, 4);
                let w1 = widest_of(&c1, 8);
                let w2 = longest_of(&c2, 17);
                let w3 = widest_of(&c3, 11);
                vec![w0 as u16, w1 as u16, 5, w2 as u16, w3 as u16, 9]
            },
            TableData::Secrets(d) => {
                let mut c0: Vec<String> = Vec::new();
                let mut c1: Vec<String> = Vec::new();
                let mut c2: Vec<String> = Vec::new();
                let mut i: usize = 0;
                while i < d.len()
                    invariant
                        i <= d.len(),
                        can_measure(*self),
                        *self == TableData::Secrets(*d),
                        c0@.len() == i && c1@.len() == i && c2@.len() == i,
                        strings_view(c0@) =~= secret_col(d@, 0).take(i as int),
                        strings_view(c1@) =~= secret_col(d@, 1).take(i as int),
                        strings_view(c2@) =~= secret_col(d@, 2).take(i as int),
                    decreases d.len() - i,
                {
                    assert(d@[i as int].public_key matches Some(p) ==> shortenable(p@));
                    c0.push(d[i].name.clone());
                    c1.push(d[i].user.clone());
                    c2.push(d[i].print_public_key());
                    i = i + 1;
                }
                proof {
                    lemma_take_all(secret_col(d@, 0));
                    lemma_take_all(secret_col(d@, 1));
                    lemma_take_all(secret_col(d@, 2));
                    assert forall|j: int| 0 <= j < c2@.len() implies utf8_len((#[trigger] c2@[j])@)
                        <= usize::MAX by {
                        assert(strings_view(c2@)[j] == c2@[j]@);
                        assert(d@[j].public_key matches Some(p) ==> shortenable(p@));
                    }
                }
                let w0 = widest_of(&c0, 4);
                let w1 = widest_of(&c1, 4);
                let w2 = longest_of(&c2, 10);
                vec![w0 as u16, w1 as u16, 8, 11, w2 as u16, 9]
            },
            TableData::CasbinNames(d) => {
                let mut c0: Vec<String> = Vec::new();
                let mut c1: Vec<String> = Vec::new();
                let mut i: usize = 0;
                while i < d.len()
                    invariant
                        i <= d.len(),
                        c0@.len() == i && c1@.len() == i,
                        strings_view(c0@) =~= name_col(d@, 0).take(i as int),
                        strings_view(c1@) =~= name_col(d@, 1).take(i as int),
                    decreases d.len() - i,
                {
                    c0.push(d[i].ptype.clone());
                    c1.push(d[i].name.clone());
                    i = i + 1;
                }
                proof {
                    lemma_take_all(name_col(d@, 0));
                    lemma_take_all(name_col(d@, 1));
                    assert forall|j: int| 0 <= j < c0@.len() implies utf8_len((#[trigger] c0@[j])@)
                        <= usize::MAX by {
                        assert(strings_view(c0@)[j] == c0@[j]@);
                    }
                }
                let w0 = longest_of(&c0, 6);
                let w1 = widest_of(&c1, 4);
                vec![w0 as u16, w1 as u16, 9]
            },
            TableData::Permissions(d) => {
                let mut c0: Vec<String> = Vec::new();
                let mut c1: Vec<String> = Vec::new();
                let mut c2: Vec<String> = Vec::new();
                let mut c3: Vec<String> = Vec::new();
                let mut i: usize = 0;
                while i < d.len()
                    invariant
                        i <= d.len(),
                        c0@.len() == i && c1@.len() == i && c2@.len() == i && c3@.len() == i,
                        strings_view(c0@) =~= permission_col(d@, 0).take(i as int),
                        strings_view(c1@) =~= permission_col(d@, 1).take(i as int),
                        strings_view(c2@) =~= permission_col(d@, 2).take(i as int),
                        strings_view(c3@) =~= permission_col(d@, 3).take(i as int),
                    decreases d.len() - i,
                {
                    c0.push(d[i].user_role.clone());
                    c1.push(d[i].target_group.clone());
                    c2.push(d[i].action_group.clone());
                    c3.push(d[i].rule.v3.clone());
                    i = i + 1;
                }
                proof {
                    lemma_take_all(permission_col(d@, 0));
                    lemma_take_all(permission_col(d@, 1));
                    lemma_take_all(permission_col(d@, 2));
                    lemma_take_all(permission_col(d@, 3));
                    assert forall|j: int| 0 <= j < c3@.len() implies utf8_len((#[trigger] c3@[j])@)
                        <= usize::MAX by {
                        assert(strings_view(c3@)[j] == c3@[j]@);
                    }
                }
                let w0 = widest_of(&c0, 9);
                let w1 = widest_of(&c1, 12);
                let w2 = widest_of(&c2, 12);
                let w3 = longest_of(&c3, 13);
                vec![w0 as u16, w1 as u16, w2 as u16, w3 as u16]
            },
        }
    }
}

proof fn lemma_take_all(s: Seq<Seq<char>>)
    ensures
        s.take(s.len() as int) =~= s,
{
}

} // verus!
