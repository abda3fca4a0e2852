//! The records of one table of the database viewer, and the widths of its columns.
use vstd::prelude::*;
use crate::common::shortenable;
use crate::database::Log;
use crate::manage::{col, longest, longest_of, name_col, secret_col, str_views, target_col, widest_of};
use crate::models::target::Target;
use crate::models::target_secret::{Secret, TargetSecret};
use crate::models::user::{strings_view, User};
use crate::roles::{CasbinName, CasbinRule};
use crate::table::{law_widest_bounds, widest};
use crate::text::utf8_len;

verus! {

broadcast use vstd::string::group_string_axioms;

/// The width of a column of ids.
pub const LENGTH_UUID: u16 = 36;

/// The width of a column of times.
pub const LENGTH_TIMSTAMP: u16 = 14;

/// The records of the table shown in the database viewer.
pub enum ViewerData {
    Users(Vec<User>),
    Targets(Vec<Target>),
    Secrets(Vec<Secret>),
    TargetSecrets(Vec<TargetSecret>),
    CasbinNames(Vec<CasbinName>),
    CasbinRule(Vec<CasbinRule>),
    Logs(Vec<Log>),
}

/// The user names (`k == 0`) or e-mail addresses (empty when absent).
pub open spec fn viewer_user_col(d: Seq<User>, k: int) -> Seq<Seq<char>> {
    d.map_values(
        |u: User|
            if k == 0 {
                u.username@
            } else {
                match u.email {
                    Some(e) => e@,
                    None => Seq::<char>::empty(),
                }
            },
    )
}

/// The extended-policy texts (`k == 3`), or the fifth (`k == 4`) or sixth value of the rules.
pub open spec fn rule_col(d: Seq<CasbinRule>, k: int) -> Seq<Seq<char>> {
    d.map_values(|r: CasbinRule| if k == 3 {
        r.v3@
    } else if k == 4 {
        r.v4@
    } else {
        r.v5@
    })
}

/// The kinds (`k == 0`) or details of the log entries.
pub open spec fn log_col(d: Seq<Log>, k: int) -> Seq<Seq<char>> {
    d.map_values(|l: Log| if k == 0 {
        l.log_type@
    } else {
        l.detail@
    })
}

/// The widths of the columns: ids and times have fixed widths; a column of names or
/// texts is as wide as its widest entry on a terminal, a column of keys or kinds as
/// long as its longest entry in bytes, each at least as wide as its header; flags
/// and masked values have fixed widths.
pub open spec fn viewer_widths_spec(d: ViewerData) -> Seq<u16> {
    match d {
        ViewerData::Users(v) => {
            let n = v@.len() as int;
            seq![
                36u16,
                widest(viewer_user_col(v@, 0), n, 8) as u16,
                widest(viewer_user_col(v@, 1), n, 5) as u16,
                13u16,
                15u16,
                15u16,
                9u16,
                36u16,
                14u16,
            ]
        },
        ViewerData::Targets(v) => {
            let n = v@.len() as int;
            seq![
                36u16,
                widest(target_col(v@, 0), n, 4) as u16,
                widest(target_col(v@, 1), n, 8) as u16,
                5u16,
                col(longest(target_col(v@, 2), n, 17)),
                widest(target_col(v@, 3), n, 11) as u16,
                9u16,
                36u16,
                14u16,
            ]
        },
        ViewerData::TargetSecrets(_) => seq![36u16, 36u16, 36u16, 9u16, 36u16, 14u16],
        ViewerData::Secrets(v) => {
            let n = v@.len() as int;
            seq![
                36u16,
                widest(secret_col(v@, 0), n, 4) as u16,
                widest(secret_col(v@, 1), n, 4) as u16,
                8u16,
                11u16,
                col(longest(secret_col(v@, 2), n, 10)),
                9u16,
                36u16,
                14u16,
            ]
        },
        ViewerData::CasbinNames(v) => {
            let n = v@.len() as int;
            seq![
                36u16,
                col(longest(name_col(v@, 0), n, 5)),
                widest(name_col(v@, 1), n, 4) as u16,
                9u16,
                36u16,
                14u16,
            ]
        },
        ViewerData::CasbinRule(v) => {
            let n = v@.len() as int;
            seq![
                36u16,
                5u16,
                36u16,
                36u16,
                36u16,
                widest(rule_col(v@, 3), n, 2) as u16,
                widest(rule_col(v@, 4), n, 2) as u16,
                widest(rule_col(v@, 5), n, 2) as u16,
                36u16,
                14u16,
            ]
        },
        ViewerData::Logs(v) => {
            let n = v@.len() as int;
            seq![
                36u16,
                widest(log_col(v@, 0), n, 8) as u16,
                36u16,
                widest(log_col(v@, 1), n, 6) as u16,
                14u16,
            ]
        },
    }
}

/// The column headers of the table shown.
pub open spec fn viewer_header_spec(d: ViewerData) -> Seq<Seq<char>> {
    match d {
        ViewerData::Users(_) => seq![
            "id"@,
            "username"@,
            "email"@,
            "password_hash"@,
            "authorized_keys"@,
            "force_init_pass"@,
            "is_active"@,
            "updated_by"@,
            "updated_at"@,
        ],
        ViewerData::Targets(_) => seq![
            "id"@,
            "name"@,
            "hostname"@,
            "port"@,
            "server_public_key"@,
            "description"@,
            "is_active"@,
            "updated_by"@,
            "updated_at"@,
        ],
        ViewerData::TargetSecrets(_) => seq![
            "id"@,
            "target_id"@,
            "secret_id"@,
            "is_active"@,
            "updated_by"@,
            "updated_at"@,
        ],
        ViewerData::Secrets(_) => seq![
            "id"@,
            "name"@,
            "user"@,
            "password"@,
            "private_key"@,
            "public_key"@,
            "is_active"@,
            "updated_by"@,
            "updated_at"@,
        ],
        ViewerData::CasbinNames(_) => seq!["id"@, "ptype"@, "name"@, "is_active"@, "updated_by"@, "updated_at"@],
        ViewerData::CasbinRule(_) => seq![
            "id"@,
            "ptype"@,
            "v0"@,
            "v1"@,
            "v2"@,
            "v3"@,
            "v4"@,
            "v5"@,
            "updated_by"@,
            "updated_at"@,
        ],
        ViewerData::Logs(_) => seq!["connection_id"@, "log_type"@, "user_id"@, "detail"@, "created_at"@],
    }
}

/// The widths of [`viewer_widths_spec`] before they are narrowed to `u16`.
pub open spec fn viewer_raw_widths(d: ViewerData) -> Seq<int> {
    match d {
        ViewerData::Users(v) => {
            let n = v@.len() as int;
            seq![36, widest(viewer_user_col(v@, 0), n, 8) as int, widest(viewer_user_col(v@, 1), n, 5) as int, 13, 15, 15, 9, 36, 14]
        },
        ViewerData::Targets(v) => {
            let n = v@.len() as int;
            seq![
                36,
                widest(target_col(v@, 0), n, 4) as int,
                widest(target_col(v@, 1), n, 8) as int,
                5,
                longest(target_col(v@, 2), n, 17) as int,
                widest(target_col(v@, 3), n, 11) as int,
                9,
                36,
                14,
            ]
        },
        ViewerData::TargetSecrets(_) => seq![36, 36, 36, 9, 36, 14],
        ViewerData::Secrets(v) => {
            let n = v@.len() as int;
            seq![
                36,
                widest(secret_col(v@, 0), n, 4) as int,
                widest(secret_col(v@, 1), n, 4) as int,
                8,
                11,
                longest(secret_col(v@, 2), n, 10) as int,
                9,
                36,
                14,
            ]
        },
        ViewerData::CasbinNames(v) => {
            let n = v@.len() as int;
            seq![36, longest(name_col(v@, 0), n, 5) as int, widest(name_col(v@, 1), n, 4) as int, 9, 36, 14]
        },
        ViewerData::CasbinRule(v) => {
            let n = v@.len() as int;
            seq![
                36,
                5,
                36,
                36,
                36,
                widest(rule_col(v@, 3), n, 2) as int,
                widest(rule_col(v@, 4), n, 2) as int,
                widest(rule_col(v@, 5), n, 2) as int,
                36,
                14,
            ]
        },
        ViewerData::Logs(v) => {
            let n = v@.len() as int;
            seq![36, widest(log_col(v@, 0), n, 8) as int, 36, widest(log_col(v@, 1), n, 6) as int, 14]
        },
    }
}

proof fn lemma_longest_floor(texts: Seq<Seq<char>>, n: int, floor: nat)
    ensures
        longest(texts, n, floor) >= floor,
    decreases n,
{
    if n > 0 {
        lemma_longest_floor(texts, n - 1, floor);
    }
}

/// Every column is at least as wide as its header has characters (the headers are
/// plain ASCII, one cell per character), when no width overflows a `u16`: a column of
/// texts is exactly as wide as the widest of its header and its entries (the header's
/// length is the floor of [`widest`] or [`longest`]), and a column of ids, flags or
/// times has a fixed width no narrower than its header.
pub proof fn law_viewer_widths_cover_headers(d: ViewerData)
    requires
        forall|i: int| 0 <= i < viewer_raw_widths(d).len() ==> #[trigger] viewer_raw_widths(d)[i] <= u16::MAX,
    ensures
        viewer_widths_spec(d).len() == viewer_header_spec(d).len(),
        viewer_raw_widths(d).len() == viewer_header_spec(d).len(),
        forall|i: int| 0 <= i < viewer_widths_spec(d).len() ==> #[trigger] viewer_widths_spec(d)[i] as int
            == viewer_raw_widths(d)[i] && viewer_raw_widths(d)[i] >= viewer_header_spec(d)[i].len(),
{
    reveal_strlit("id");
    reveal_strlit("username");
    reveal_strlit("email");
    reveal_strlit("password_hash");
    reveal_strlit("authorized_keys");
    reveal_strlit("force_init_pass");
    reveal_strlit("is_active");
    reveal_strlit("updated_by");
    reveal_strlit("updated_at");
    reveal_strlit("name");
    reveal_strlit("hostname");
    reveal_strlit("port");
    reveal_strlit("server_public_key");
    reveal_strlit("description");
    reveal_strlit("target_id");
    reveal_strlit("secret_id");
    reveal_strlit("user");
    reveal_strlit("password");
    reveal_strlit("private_key");
    reveal_strlit("public_key");
    reveal_strlit("ptype");
    reveal_strlit("v0");
    reveal_strlit("v1");
    reveal_strlit("v2");
    reveal_strlit("v3");
    reveal_strlit("v4");
    reveal_strlit("v5");
    reveal_strlit("connection_id");
    reveal_strlit("log_type");
    reveal_strlit("user_id");
    reveal_strlit("detail");
    reveal_strlit("created_at");
    match d {
        ViewerData::Users(v) => {
            let n = v@.len() as int;
            law_widest_bounds(viewer_user_col(v@, 0), n, 8);
            law_widest_bounds(viewer_user_col(v@, 1), n, 5);
        },
        ViewerData::Targets(v) => {
            let n = v@.len() as int;
            law_widest_bounds(target_col(v@, 0), n, 4);
            law_widest_bounds(target_col(v@, 1), n, 8);
            lemma_longest_floor(target_col(v@, 2), n, 17);
            law_widest_bounds(target_col(v@, 3), n, 11);
        },
        ViewerData::Secrets(v) => {
            let n = v@.len() as int;
            law_widest_bounds(secret_col(v@, 0), n, 4);
            law_widest_bounds(secret_col(v@, 1), n, 4);
            lemma_longest_floor(secret_col(v@, 2), n, 10);
        },
        ViewerData::CasbinNames(v) => {
            let n = v@.len() as int;
            lemma_longest_floor(name_col(v@, 0), n, 5);
            law_widest_bounds(name_col(v@, 1), n, 4);
        },
        ViewerData::CasbinRule(v) => {
            let n = v@.len() as int;
            law_widest_bounds(rule_col(v@, 3), n, 2);
            law_widest_bounds(rule_col(v@, 4), n, 2);
            law_widest_bounds(rule_col(v@, 5), n, 2);
        },
        ViewerData::Logs(v) => {
            let n = v@.len() as int;
            law_widest_bounds(log_col(v@, 0), n, 8);
            law_widest_bounds(log_col(v@, 1), n, 6);
        },
        ViewerData::TargetSecrets(_) => {},
    }
}

/// The keys of the listed records can be shortened, and the byte lengths of the
/// texts measured in bytes fit a `usize`.
pub open spec fn can_view(d: ViewerData) -> bool {
    match d {
        ViewerData::Targets(v) => forall|i: int|
            0 <= i < v@.len() ==> shortenable((#[trigger] v@[i]).server_public_key@)
                && utf8_len(crate::common::shortened(v@[i].server_public_key@)) <= usize::MAX,
        ViewerData::Secrets(v) => forall|i: int|
            0 <= i < v@.len() ==> ((#[trigger] v@[i]).public_key matches Some(p) ==> shortenable(p@)
                && utf8_len(crate::common::shortened(p@)) <= usize::MAX),
        ViewerData::CasbinNames(v) => forall|i: int|
            0 <= i < v@.len() ==> utf8_len((#[trigger] v@[i]).ptype@) <= usize::MAX,
        _ => true,
    }
}

proof fn lemma_take_all(s: Seq<Seq<char>>)
    ensures
        s.take(s.len() as int) == s,
{
    assert(s.take(s.len() as int) =~= s);
}

impl ViewerData {
    /// The column headers.
    pub fn header(&self) -> (h: Vec<&'static str>)
        ensures
            str_views(h@) == viewer_header_spec(*self),
    {
        let h: Vec<&'static str> = match self {
            ViewerData::Users(_) => vec![
                "id",
                "username",
                "email",
                "password_hash",
                "authorized_keys",
                "force_init_pass",
                "is_active",
                "updated_by",
                "updated_at",
            ],
            ViewerData::Targets(_) => vec![
                "id",
                "name",
                "hostname",
                "port",
                "server_public_key",
                "description",
                "is_active",
                "updated_by",
                "updated_at",
            ],
            ViewerData::TargetSecrets(_) => vec!["id", "target_id", "secret_id", "is_active", "updated_by", "updated_at"],
            ViewerData::Secrets(_) => vec![
                "id",
                "name",
                "user",
                "password",
                "private_key",
                "public_key",
                "is_active",
                "updated_by",
                "updated_at",
            ],
            ViewerData::CasbinNames(_) => vec!["id", "ptype", "name", "is_active", "updated_by", "updated_at"],
            ViewerData::CasbinRule(_) => vec![
                "id",
                "ptype",
                "v0",
                "v1",
                "v2",
                "v3",
                "v4",
                "v5",
                "updated_by",
                "updated_at",
            ],
            ViewerData::Logs(_) => vec!["connection_id", "log_type", "user_id", "detail", "created_at"],
        };
        assert(str_views(h@) =~= viewer_header_spec(*self));
        h
    }

    /// The width of each column (as `Constraint::Length` takes it).
    pub fn constraint_len_calculator(&self) -> (w: Vec<u16>)
        requires
            can_view(*self),
        ensures
            w@ == viewer_widths_spec(*self),
    {
        match self {
            ViewerData::Users(d) => {
                let mut c0: Vec<String> = Vec::new();
                let mut c1: Vec<String> = Vec::new();
                let mut i: usize = 0;
                while i < d.len()
                    invariant
                        i <= d.len(),
                        c0@.len() == i && c1@.len() == i,
                        strings_view(c0@) =~= viewer_user_col(d@, 0).take(i as int),
                        strings_view(c1@) =~= viewer_user_col(d@, 1).take(i as int),
                    decreases d.len() - i,
                {
                    c0.push(d[i].username.clone());
                    c1.push(
                        match &d[i].email {
                            Some(e) => e.clone(),
                            None => String::new(),
                        },
                    );
                    i = i + 1;
                }
                proof {
                    lemma_take_all(viewer_user_col(d@, 0));
                    lemma_take_all(viewer_user_col(d@, 1));
                }
                let w0 = widest_of(&c0, 8);
                let w1 = widest_of(&c1, 5);
                vec![LENGTH_UUID, w0 as u16, w1 as u16, 13, 15, 15, 9, LENGTH_UUID, LENGTH_TIMSTAMP]
            },
            ViewerData::Targets(d) => {
                let mut c0: Vec<String> = Vec::new();
                let mut c1: Vec<String> = Vec::new();
                let mut c2: Vec<String> = Vec::new();
                let mut c3: Vec<String> = Vec::new();
                let mut i: usize = 0;
                while i < d.len()
                    invariant
                        i <= d.len(),
                        can_view(*self),
                        *self == ViewerData::Targets(*d),
                        c0@.len() == i && c1@.len() == i && c2@.len() == i && c3@.len() == i,
                        strings_view(c0@) =~= target_col(d@, 0).take(i as int),
                        strings_view(c1@) =~= target_col(d@, 1).take(i as int),
                        strings_view(c2@) =~= target_col(d@, 2).take(i as int),
                        strings_view(c3@) =~= target_col(d@, 3).take(i as int),
                    decreases d.len() - i,
                {
                    assert(shortenable(d@[i as int].server_public_key@));
                    c0.push(d[i].name.clone());
                    c1.push(d[i].hostname.clone());
                    c2.push(d[i].print_server_key());
                    c3.push(
                        match &d[i].description {
                            Some(e) => e.clone(),
                            None => String::new(),
                        },
                    );
                    i = i + 1;
                }
                proof {
                    lemma_take_all(target_col(d@, 0));
                    lemma_take_all(target_col(d@, 1));
                    lemma_take_all(target_col(d@, 2));
                    lemma_take_all(target_col(d@, 3));
                    assert forall|j: int| 0 <= j < c2@.len() implies utf8_len((#[trigger] c2@[j])@)
                        <= usize::MAX by {
                        assert(strings_view(c2@)[j] == c2@[j]@);
                    }
                }
                let w0 = widest_of(&c0, 4);
                let w1 = widest_of(&c1, 8);
                let w2 = longest_of(&c2, 17);
                let w3 = widest_of(&c3, 11);
                vec![LENGTH_UUID, w0 as u16, w1 as u16, 5, w2 as u16, w3 as u16, 9, LENGTH_UUID, LENGTH_TIMSTAMP]
            },
            ViewerData::TargetSecrets(_) => {
                vec![LENGTH_UUID, LENGTH_UUID, LENGTH_UUID, 9, LENGTH_UUID, LENGTH_TIMSTAMP]
            },
            ViewerData::Secrets(d) => {
                let mut c0: Vec<String> = Vec::new();
                let mut c1: Vec<String> = Vec::new();
                let mut c2: Vec<String> = Vec::new();
                let mut i: usize = 0;
                while i < d.len()
                    invariant
                        i <= d.len(),
                        can_view(*self),
                        *self == ViewerData::Secrets(*d),
                        c0@.len() == i && c1@.len() == i && c2@.len() == i,
                        strings_view(c0@) =~= secret_col(d@, 0).take(i as int),
                        strings_view(c1@) =~= secret_col(d@, 1).take(i as int),
                        strings_view(c2@) =~= secret_col(d@, 2).take(i as int),
                    decreases d.len() - i,
                {
                    assert(d@[i as int].public_key matches Some(p) ==> shortenable(p@));
                    c0.push(d[i].name.clone());
                    c1.push(d[i].user.clone());
                    c2.push(d[i].print_public_key());
                    i = i + 1;
                }
                proof {
                    lemma_take_all(secret_col(d@, 0));
                    lemma_take_all(secret_col(d@, 1));
                    lemma_take_all(secret_col(d@, 2));
                    assert forall|j: int| 0 <= j < c2@.len() implies utf8_len((#[trigger] c2@[j])@)
                        <= usize::MAX by {
                        assert(strings_view(c2@)[j] == c2@[j]@);
                    }
                }
                let w0 = widest_of(&c0, 4);
                let w1 = widest_of(&c1, 4);
                let w2 = longest_of(&c2, 10);
                vec![LENGTH_UUID, w0 as u16, w1 as u16, 8, 11, w2 as u16, 9, LENGTH_UUID, LENGTH_TIMSTAMP]
            },
            ViewerData::CasbinNames(d) => {
                let mut c0: Vec<String> = Vec::new();
                let mut c1: Vec<String> = Vec::new();
                let mut i: usize = 0;
                while i < d.len()
                    invariant
                        i <= d.len(),
                        c0@.len() == i && c1@.len() == i,
                        strings_view(c0@) =~= name_col(d@, 0).take(i as int),
                        strings_view(c1@) =~= name_col(d@, 1).take(i as int),
                    decreases d.len() - i,
                {
                    c0.push(d[i].ptype.clone());
                    c1.push(d[i].name.clone());
                    i = i + 1;
                }
                proof {
                    lemma_take_all(name_col(d@, 0));
                    lemma_take_all(name_col(d@, 1));
                    assert forall|j: int| 0 <= j < c0@.len() implies utf8_len((#[trigger] c0@[j])@)
                        <= usize::MAX by {
                        assert(strings_view(c0@)[j] == c0@[j]@);
                    }
                }
                let w0 = longest_of(&c0, 5);
                let w1 = widest_of(&c1, 4);
                vec![LENGTH_UUID, w0 as u16, w1 as u16, 9, LENGTH_UUID, LENGTH_TIMSTAMP]
            },
            ViewerData::CasbinRule(d) => {
                let mut c3: Vec<String> = Vec::new();
                let mut c4: Vec<String> = Vec::new();
                let mut c5: Vec<String> = Vec::new();
                let mut i: usize = 0;
                while i < d.len()
                    invariant
                        i <= d.len(),
                        c3@.len() == i && c4@.len() == i && c5@.len() == i,
                        strings_view(c3@) =~= rule_col(d@, 3).take(i as int),
                        strings_view(c4@) =~= rule_col(d@, 4).take(i as int),
                        strings_view(c5@) =~= rule_col(d@, 5).take(i as int),
                    decreases d.len() - i,
                {
                    c3.push(d[i].v3.clone());
                    c4.push(d[i].v4.clone());
                    c5.push(d[i].v5.clone());
                    i = i + 1;
                }
                proof {
                    lemma_take_all(rule_col(d@, 3));
                    lemma_take_all(rule_col(d@, 4));
                    lemma_take_all(rule_col(d@, 5));
                }
                let w3 = widest_of(&c3, 2);
                let w4 = widest_of(&c4, 2);
                let w5 = widest_of(&c5, 2);
                vec![LENGTH_UUID, 5, 36, 36, 36, w3 as u16, w4 as u16, w5 as u16, LENGTH_UUID, LENGTH_TIMSTAMP]
            },
            ViewerData::Logs(d) => {
                let mut c0: Vec<String> = Vec::new();
                let mut c1: Vec<String> = Vec::new();
                let mut i: usize = 0;
                while i < d.len()
                    invariant
                        i <= d.len(),
                        c0@.len() == i && c1@.len() == i,
                        strings_view(c0@) =~= log_col(d@, 0).take(i as int),
                        strings_view(c1@) =~= log_col(d@, 1).take(i as int),
                    decreases d.len() - i,
                {
                    c0.push(d[i].log_type.clone());
                    c1.push(d[i].detail.clone());
                    i = i + 1;
                }
                proof {
                    lemma_take_all(log_col(d@, 0));
                    lemma_take_all(log_col(d@, 1));
                }
                let w0 = widest_of(&c0, 8);
                let w1 = widest_of(&c1, 6);
                vec![LENGTH_UUID, w0 as u16, LENGTH_UUID, w1 as u16, LENGTH_TIMSTAMP]
            },
        }
    }
}

} // verus!
