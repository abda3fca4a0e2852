use rustion::policy::{ExtendPolicyReq, IpAddress, Timestamp};
use rustion::roles::{CasbinRule, RoleManage, RoleType};

fn rule(ptype: &str, v0: &str, v1: &str, v2: Option<&str>, v3: &str) -> CasbinRule {
    CasbinRule {
        id: format!("{}-{}-{}", ptype, v0, v1),
        ptype: ptype.to_string(),
        v0: v0.to_string(),
        v1: v1.to_string(),
        v2: v2.map(|s| s.to_string()),
        v3: v3.to_string(),
        v4: String::new(),
        v5: String::new(),
        updated_by: "admin".to_string(),
        updated_at: 0,
    }
}

fn group(member: &str, grp: &str, kind: &str) -> CasbinRule {
    rule(kind, member, grp, None, "")
}

const ALICE: &str = "66ed2d9e-a51c-4765-966d-b77763232717";
const BOB: &str = "a422db6f-c50e-48d3-bcfb-ddbf8989a974";

fn manager() -> RoleManage {
    let subjects = vec![
        group(ALICE, "dev", "g1"),
        group("dev", "staff", "g1"),
        group("oncall", "dev", "g1"),
    ];
    let objects = vec![group("venus", "prod", "g2"), group("mars", "prod", "g2"), group("prod", "all", "g2")];
    let actions = vec![group("shell", "login", "g3"), group("exec", "login", "g3")];
    RoleManage::new(&subjects, &objects, &actions)
}

fn noon() -> Timestamp {
    Timestamp { secs: 1_735_732_800, nanos: 0 } // 2025-01-01 12:00:00 UTC
}

#[test]
fn role_hierarchy_membership() {
    let m = manager();
    assert!(m.match_role("staff", ALICE, RoleType::Subject));
    assert!(m.match_role("dev", ALICE, RoleType::Subject));
    assert!(!m.match_role(ALICE, "dev", RoleType::Subject));
    assert!(m.match_role("all", "venus", RoleType::Object));
    assert!(m.match_role("prod", "prod", RoleType::Object));
    assert!(!m.match_role("venus", "mars", RoleType::Object));
    assert!(m.match_role("login", "exec", RoleType::Action));
    assert!(!m.match_role("nobody", "nobody", RoleType::Subject));
}

#[test]
fn role_objects_from_start() {
    let m = manager();
    let mut all = m.fetch_role_from_start("all", RoleType::Object);
    all.sort();
    assert_eq!(all, vec!["all", "mars", "prod", "venus"]);
    assert_eq!(m.fetch_role_from_start("venus", RoleType::Object), vec!["venus"]);
    assert!(m.fetch_role_from_start("saturn", RoleType::Object).is_empty());
}

#[test]
fn role_graph_copy() {
    let m = manager();
    let g = m.get_group(RoleType::Object);
    assert_eq!(g.node_count(), 4);
    assert_eq!(g.edge_count(), 3);
}

#[test]
fn match_subject_policies() {
    let m = manager();
    let roles = vec![group(ALICE, "dev", "g1")];
    // A policy applies to the subject itself, or to a group that the subject's role
    // group reaches downwards (here `oncall`, a member of `dev`); not to a group above.
    let policies = vec![
        rule("p", "oncall", "prod", Some("login"), ""),
        rule("p", BOB, "venus", Some("shell"), ""),
        rule("p", ALICE, "mars", Some("exec"), ""),
        rule("p", "staff", "venus", Some("exec"), ""),
        rule("p", BOB, "saturn", Some("exec"), ""),
    ];
    let got = m.match_sub(policies, &roles, ALICE);
    let objs: Vec<&str> = got.iter().map(|p| p.v1.as_str()).collect();
    assert_eq!(objs, vec!["prod", "mars"]);
}

#[test]
fn enforce_decisions() {
    let m = manager();
    let roles = vec![group(ALICE, "dev", "g1")];
    let policies = || {
        vec![
            rule("p", "oncall", "prod", Some("login"), "10.0.0.0/8,,,"),
            rule("p", BOB, "mars", Some("shell"), ""),
        ]
    };
    let inside = ExtendPolicyReq { ip: Some(IpAddress::V4(0x0a00_0001)), now: noon() };
    let outside = ExtendPolicyReq { ip: Some(IpAddress::V4(0xc0a8_0001)), now: noon() };
    // The policy for oncall applies to Alice (her group dev reaches it); venus is in
    // prod; shell is a login action.
    assert_eq!(m.enforce_at(policies(), &roles, ALICE, "venus", "shell", true, &inside, noon()), Ok(true));
    // The IP condition of the policy refuses another network.
    assert_eq!(m.enforce_at(policies(), &roles, ALICE, "venus", "shell", true, &outside, noon()), Ok(false));
    // An inactive object is refused.
    assert_eq!(m.enforce_at(policies(), &roles, ALICE, "venus", "shell", false, &inside, noon()), Ok(false));
    // An action outside the granted group is refused.
    assert_eq!(m.enforce_at(policies(), &roles, ALICE, "venus", "scp", true, &inside, noon()), Ok(false));
    // No policy for this subject.
    assert_eq!(m.enforce_at(policies(), &vec![], "carol", "venus", "shell", true, &inside, noon()), Ok(false));
    // A broken policy text is an error.
    let broken = vec![rule("p", ALICE, "venus", Some("shell"), "999.0.0.0/8,,,")];
    assert!(m.enforce_at(broken, &roles, ALICE, "venus", "shell", true, &inside, noon()).is_err());
}

#[test]
fn group_insert_refusals() {
    let m = manager();
    assert_eq!(
        m.group_insert_refusal(RoleType::Subject, "dev", "developers", true, "dev"),
        Some("Cannot add a group to itself".to_string())
    );
    assert_eq!(
        m.group_insert_refusal(RoleType::Subject, "staff", "everyone", true, "dev"),
        Some("Cannot add everyone: would create a cycle in group hierarchy".to_string())
    );
    assert_eq!(
        m.group_insert_refusal(RoleType::Subject, "dev", "developers", true, "oncall"),
        Some("Cannot add developers: would create a cycle in group hierarchy".to_string())
    );
    assert_eq!(m.group_insert_refusal(RoleType::Subject, "oncall", "oncall", true, "staff"), None);
    assert_eq!(m.group_insert_refusal(RoleType::Object, "prod", "prod", true, "venus"), Some(
        "Cannot add prod: would create a cycle in group hierarchy".to_string()
    ));
    // A plain member is never refused, and neither is a group unknown to the hierarchy.
    assert_eq!(m.group_insert_refusal(RoleType::Subject, "staff", "staff", false, "dev"), None);
    assert_eq!(m.group_insert_refusal(RoleType::Action, "admin", "admin", true, "login"), None);
}
