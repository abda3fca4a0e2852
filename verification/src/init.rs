//! The data a fresh installation starts from: the administrator, the reserved
//! objects and actions, the login group, and the permissions that let the
//! administrator in from the local machine only while every member of the login
//! group may log in from anywhere.
use vstd::prelude::*;
use crate::database::{
    ACT_DIRECT_TCPIP, ACT_EXEC, ACT_LOGIN, ACT_PTY, ACT_SHELL, INTERNAL_ACTION_TYPE,
    INTERNAL_OBJECT_TYPE, OBJ_ADMIN, OBJ_LOGIN,
};
use crate::models::new_id;
use crate::models::user::User;
use crate::policy::{
    admits, ip_in_cidr_spec, net_contains, network_text_reads_back, parse_network, policy_text,
    spec_parse_ip_network, verify_spec, ExtendPolicy, ExtendPolicyReq, IpNet, IpPolicy,
    PolicyErrorKind, Timestamp,
};
use crate::roles::{spec_parse_uuid, CasbinName, CasbinRule, RoleManage};
use crate::text::lemma_split_three_trailing;

verus! {

broadcast use vstd::string::group_string_axioms;

/// Whether setting up may go ahead: every table (given by its number of rows) is empty.
pub fn init_allowed(counts: &Vec<usize>) -> (ok: bool)
    ensures
        ok == (forall|i: int| 0 <= i < counts@.len() ==> counts@[i] == 0),
{
    let mut i: usize = 0;
    while i < counts.len()
        invariant
            i <= counts.len(),
            forall|j: int| 0 <= j < i ==> counts@[j] == 0,
        decreases counts.len() - i,
    {
        if counts[i] != 0 {
            return false;
        }
        i = i + 1;
    }
    true
}

/// The administrator: user `admin` with a fresh id, recorded as created by itself,
/// active, without password or keys, and made to choose a password at first login.
pub fn initial_admin() -> (u: User)
    ensures
        spec_parse_uuid(u.id@) is Some,
        u.username@ == "admin"@,
        u.email is None,
        u.hash() is None,
        u.keys() is None,
        u.force_init_pass,
        u.is_active,
        u.updated_by == u.id,
{
    let admin_id = new_id();
    let mut u = User::new(admin_id.clone());
    u.username = "admin".to_owned();
    u.id = admin_id;
    u
}

/// `n` is an active name of kind `ptype` called `name`, with a fresh id, recorded by `by`.
pub open spec fn is_name(n: CasbinName, ptype: Seq<char>, name: Seq<char>, by: Seq<char>) -> bool {
    &&& spec_parse_uuid(n.id@) is Some
    &&& n.ptype@ == ptype
    &&& n.name@ == name
    &&& n.is_active
    &&& n.updated_by@ == by
}

fn active_name(ptype: &str, name: &str, by: &String) -> (n: CasbinName)
    ensures
        is_name(n, ptype@, name@, by@),
{
    CasbinName::new(ptype.to_owned(), name.to_owned(), true, by.clone())
}

/// The reserved actions (opening a direct TCP/IP channel, a terminal, a command, a
/// shell, logging in) and objects (logging in, the administration console), in this
/// order, recorded by `by`.
pub fn reserved_names(by: &String) -> (r: Vec<CasbinName>)
    ensures
        r@.len() == 7,
        is_name(r@[0], INTERNAL_ACTION_TYPE@, ACT_DIRECT_TCPIP@, by@),
        is_name(r@[1], INTERNAL_ACTION_TYPE@, ACT_PTY@, by@),
        is_name(r@[2], INTERNAL_ACTION_TYPE@, ACT_EXEC@, by@),
        is_name(r@[3], INTERNAL_ACTION_TYPE@, ACT_SHELL@, by@),
        is_name(r@[4], INTERNAL_ACTION_TYPE@, ACT_LOGIN@, by@),
        is_name(r@[5], INTERNAL_OBJECT_TYPE@, OBJ_LOGIN@, by@),
        is_name(r@[6], INTERNAL_OBJECT_TYPE@, OBJ_ADMIN@, by@),
{
    let mut r: Vec<CasbinName> = Vec::new();
    r.push(active_name(INTERNAL_ACTION_TYPE, ACT_DIRECT_TCPIP, by));
    r.push(active_name(INTERNAL_ACTION_TYPE, ACT_PTY, by));
    r.push(active_name(INTERNAL_ACTION_TYPE, ACT_EXEC, by));
    r.push(active_name(INTERNAL_ACTION_TYPE, ACT_SHELL, by));
    r.push(active_name(INTERNAL_ACTION_TYPE, ACT_LOGIN, by));
    r.push(active_name(INTERNAL_OBJECT_TYPE, OBJ_LOGIN, by));
    r.push(active_name(INTERNAL_OBJECT_TYPE, OBJ_ADMIN, by));
    r
}

/// The subject group `login_group`, recorded by `by`.
pub fn login_group(by: &String) -> (n: CasbinName)
    ensures
        is_name(n, "g1"@, "login_group"@, by@),
{
    active_name("g1", "login_group", by)
}

/// No condition but that the client's address lies in `net`.
pub open spec fn only_from(net: IpNet) -> ExtendPolicy {
    ExtendPolicy { ip_policy: Some(IpPolicy::Allow(net)), start_time: None, end_time: None, expire_date: None }
}

/// No condition at all.
pub open spec fn unconditional() -> ExtendPolicy {
    ExtendPolicy { ip_policy: None, start_time: None, end_time: None, expire_date: None }
}

/// `r` is a permission with a fresh id for `sub` to do `act` on `obj` under `policy`
/// (written as its text), recorded by `by`.
pub open spec fn is_permission(
    r: CasbinRule,
    sub: Seq<char>,
    obj: Seq<char>,
    act: Seq<char>,
    policy: ExtendPolicy,
    by: Seq<char>,
) -> bool {
    &&& spec_parse_uuid(r.id@) is Some
    &&& r.ptype@ == "p"@
    &&& r.v0@ == sub
    &&& r.v1@ == obj
    &&& r.v2 matches Some(a) && a@ == act
    &&& r.v3@ == policy_text(policy)
    &&& r.v4@.len() == 0
    &&& r.v5@.len() == 0
    &&& r.updated_by@ == by
}

/// The starting permissions: the administrator may log in and open the console from
/// the networks `v4` and `v6` (login, console, then the same for `v6`), and the
/// group may log in from anywhere; all recorded by the administrator.
pub open spec fn initial_rules_spec(
    r: Seq<CasbinRule>,
    admin: Seq<char>,
    login_obj: Seq<char>,
    admin_obj: Seq<char>,
    login_act: Seq<char>,
    group: Seq<char>,
    v4: IpNet,
    v6: IpNet,
) -> bool {
    &&& r.len() == 5
    &&& is_permission(r[0], admin, login_obj, login_act, only_from(v4), admin)
    &&& is_permission(r[1], admin, admin_obj, login_act, only_from(v4), admin)
    &&& is_permission(r[2], admin, login_obj, login_act, only_from(v6), admin)
    &&& is_permission(r[3], admin, admin_obj, login_act, only_from(v6), admin)
    &&& is_permission(r[4], group, login_obj, login_act, unconditional(), admin)
    &&& network_text_reads_back(v4)
    &&& network_text_reads_back(v6)
}

fn permission(sub: &String, obj: &String, act: &String, policy: &ExtendPolicy, by: &String) -> (r:
    CasbinRule)
    requires
        policy.printable(),
    ensures
        is_permission(r, sub@, obj@, act@, *policy, by@),
        policy.ip_policy matches Some(p) ==> network_text_reads_back(p.net()),
{
    let text = policy.to_policy_string();
    CasbinRule::new(
        "p".to_owned(),
        sub.clone(),
        obj.clone(),
        Some(act.clone()),
        text,
        String::new(),
        String::new(),
        by.clone(),
    )
}

/// The starting permissions for the given ids, with `v4` and `v6` as the networks the
/// administrator is allowed from.
pub fn default_rules(
    admin: &String,
    login_obj: &String,
    admin_obj: &String,
    login_act: &String,
    group: &String,
    v4: IpNet,
    v6: IpNet,
) -> (r: Vec<CasbinRule>)
    requires
        v4.wf(),
        v6.wf(),
    ensures
        initial_rules_spec(r@, admin@, login_obj@, admin_obj@, login_act@, group@, v4, v6),
{
    let p4 = ExtendPolicy { ip_policy: Some(IpPolicy::Allow(v4)), start_time: None, end_time: None, expire_date: None };
    let p6 = ExtendPolicy { ip_policy: Some(IpPolicy::Allow(v6)), start_time: None, end_time: None, expire_date: None };
    let open = ExtendPolicy { ip_policy: None, start_time: None, end_time: None, expire_date: None };
    let mut r: Vec<CasbinRule> = Vec::new();
    r.push(permission(admin, login_obj, login_act, &p4, admin));
    r.push(permission(admin, admin_obj, login_act, &p4, admin));
    r.push(permission(admin, login_obj, login_act, &p6, admin));
    r.push(permission(admin, admin_obj, login_act, &p6, admin));
    r.push(permission(group, login_obj, login_act, &open, admin));
    r
}

pub open spec fn localhost_v4() -> Seq<char> {
    "127.0.0.1/32"@
}

pub open spec fn localhost_v6() -> Seq<char> {
    "::1/128"@
}

/// The starting permissions, the administrator allowed from the loopback networks
/// `127.0.0.1/32` and `::1/128`; `None` if either does not read as a network.
pub fn initial_rules(
    admin: &String,
    login_obj: &String,
    admin_obj: &String,
    login_act: &String,
    group: &String,
) -> (r: Option<Vec<CasbinRule>>)
    ensures
        match r {
            Some(v) => spec_parse_ip_network(localhost_v4()) matches Some(v4)
                && spec_parse_ip_network(localhost_v6()) matches Some(v6)
                && initial_rules_spec(v@, admin@, login_obj@, admin_obj@, login_act@, group@, v4, v6),
            None => spec_parse_ip_network(localhost_v4()) is None || spec_parse_ip_network(
                localhost_v6(),
            ) is None,
        },
{
    let v4 = match parse_network("127.0.0.1/32") {
        Some(n) => n,
        None => return None,
    };
    let v6 = match parse_network("::1/128") {
        Some(n) => n,
        None => return None,
    };
    Some(default_rules(admin, login_obj, admin_obj, login_act, group, v4, v6))
}

proof fn lemma_only_from_verdict(net: IpNet, req: ExtendPolicyReq, now: Timestamp)
    requires
        network_text_reads_back(net),
    ensures
        verify_spec(req, policy_text(only_from(net)), now) == Ok::<bool, PolicyErrorKind>(
            ip_in_cidr_spec(req.ip, Some(IpPolicy::Allow(net))),
        ),
{
    let t = crate::policy::spec_ip_network_string(net);
    assert(policy_text(only_from(net)) =~= t + seq![',', ',', ',']);
    lemma_split_three_trailing(t, ',');
    assert(admits(req, only_from(net)) == ip_in_cidr_spec(req.ip, Some(IpPolicy::Allow(net))));
}

proof fn lemma_unconditional_verdict(req: ExtendPolicyReq, now: Timestamp)
    ensures
        verify_spec(req, policy_text(unconditional()), now) == Ok::<bool, PolicyErrorKind>(true),
{
    let e = Seq::<char>::empty();
    assert(policy_text(unconditional()) =~= e + seq![',', ',', ',']);
    lemma_split_three_trailing(e, ',');
}

/// What the starting permissions decide: each of the administrator's four lets a
/// request in exactly when it comes from an address of its network, and the group's
/// lets every request in.
pub proof fn law_initial_rule_verdicts(
    r: Seq<CasbinRule>,
    admin: Seq<char>,
    login_obj: Seq<char>,
    admin_obj: Seq<char>,
    login_act: Seq<char>,
    group: Seq<char>,
    v4: IpNet,
    v6: IpNet,
    req: ExtendPolicyReq,
    now: Timestamp,
)
    requires
        initial_rules_spec(r, admin, login_obj, admin_obj, login_act, group, v4, v6),
    ensures
        verify_spec(req, r[0].v3@, now) == Ok::<bool, PolicyErrorKind>(ip_in_cidr_spec(req.ip, Some(IpPolicy::Allow(v4)))),
        verify_spec(req, r[1].v3@, now) == Ok::<bool, PolicyErrorKind>(ip_in_cidr_spec(req.ip, Some(IpPolicy::Allow(v4)))),
        verify_spec(req, r[2].v3@, now) == Ok::<bool, PolicyErrorKind>(ip_in_cidr_spec(req.ip, Some(IpPolicy::Allow(v6)))),
        verify_spec(req, r[3].v3@, now) == Ok::<bool, PolicyErrorKind>(ip_in_cidr_spec(req.ip, Some(IpPolicy::Allow(v6)))),
        verify_spec(req, r[4].v3@, now) == Ok::<bool, PolicyErrorKind>(true),
{
    lemma_only_from_verdict(v4, req, now);
    lemma_only_from_verdict(v6, req, now);
    lemma_unconditional_verdict(req, now);
}

/// Under the starting permissions the administrator is let in, to anything, only
/// from an address of one of the two networks it was allowed from, whatever the
/// group memberships: the group's permission names the group by its id, which no
/// membership makes the administrator's.
pub proof fn law_admin_only_from_allowed_networks(
    m: RoleManage,
    r: Seq<CasbinRule>,
    roles: Seq<CasbinRule>,
    admin: Seq<char>,
    login_obj: Seq<char>,
    admin_obj: Seq<char>,
    login_act: Seq<char>,
    group: Seq<char>,
    v4: IpNet,
    v6: IpNet,
    obj: Seq<char>,
    act: Seq<char>,
    obj_active: bool,
    req: ExtendPolicyReq,
    now: Timestamp,
)
    requires
        initial_rules_spec(r, admin, login_obj, admin_obj, login_act, group, v4, v6),
        spec_parse_uuid(group) is Some,
        group != admin,
        m.decide(m.matched(r, roles, admin), obj, act, obj_active, req, now) == Ok::<bool, PolicyErrorKind>(true),
    ensures
        req.ip matches Some(ip) && (net_contains(v4, ip) || net_contains(v6, ip)),
{
    broadcast use vstd::seq_lib::group_seq_properties;
    let f = |p: CasbinRule| m.sub_matches(roles, admin, p);
    let ms = m.matched(r, roles, admin);
    assert(ms == r.filter(f));
    m.law_grant_has_witness(ms, obj, act, obj_active, req, now);
    let i = choose|i: int| 0 <= i < ms.len() && m.obj_matches(#[trigger] ms[i], obj) && m.act_matches(ms[i], act)
        && verify_spec(req, ms[i].v3@, now) == Ok::<bool, PolicyErrorKind>(true);
    let p = ms[i];
    r.lemma_filter_pred(f, i);
    assert(ms.contains(p));
    r.lemma_filter_contains_rev(f, p);
    let k = choose|k: int| 0 <= k < r.len() && r[k] == p;
    law_initial_rule_verdicts(r, admin, login_obj, admin_obj, login_act, group, v4, v6, req, now);
    assert(k != 4);
}

} // verus!
