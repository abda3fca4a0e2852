use rustion::init::{init_allowed, initial_admin, initial_rules, login_group, reserved_names};
use rustion::policy::{verify_extend_policy_at, ExtendPolicyReq, IpAddress, Timestamp};

#[test]
fn setup_needs_empty_tables() {
    assert!(init_allowed(&vec![]));
    assert!(init_allowed(&vec![0, 0, 0, 0, 0, 0]));
    assert!(!init_allowed(&vec![0, 0, 3, 0, 0, 0]));
    assert!(!init_allowed(&vec![1]));
}

#[test]
fn administrator_account() {
    let u = initial_admin();
    assert_eq!(u.username, "admin");
    assert_eq!(u.updated_by, u.id);
    assert_eq!(u.id.len(), 36);
    assert!(u.force_init_pass);
    assert!(u.is_active);
    assert!(u.password_hash.is_none());
    assert_ne!(initial_admin().id, u.id);
}

#[test]
fn reserved_names_in_order() {
    let by = "4f1c".to_string();
    let names = reserved_names(&by);
    let got: Vec<(&str, &str)> = names.iter().map(|n| (n.ptype.as_str(), n.name.as_str())).collect();
    assert_eq!(
        got,
        vec![
            ("__internal_action_type", "__internal_action_open_direct_tcpip"),
            ("__internal_action_type", "__internal_action_pty"),
            ("__internal_action_type", "__internal_action_exec"),
            ("__internal_action_type", "__internal_action_shell"),
            ("__internal_action_type", "__internal_action_login"),
            ("__internal_object_type", "__internal_object_login"),
            ("__internal_object_type", "__internal_object_admin"),
        ]
    );
    assert!(names.iter().all(|n| n.is_active && n.updated_by == by));
    let g = login_group(&by);
    assert_eq!((g.ptype.as_str(), g.name.as_str(), g.is_active), ("g1", "login_group", true));
}

#[test]
fn admin_allowed_from_localhost_only() {
    let s = |x: &str| x.to_string();
    let rules = initial_rules(&s("adm"), &s("o-login"), &s("o-admin"), &s("a-login"), &s("grp")).unwrap();
    assert_eq!(rules.len(), 5);
    let shape: Vec<(&str, &str, &str, Option<&str>, &str)> = rules
        .iter()
        .map(|r| (r.ptype.as_str(), r.v0.as_str(), r.v1.as_str(), r.v2.as_deref(), r.v3.as_str()))
        .collect();
    assert_eq!(
        shape,
        vec![
            ("p", "adm", "o-login", Some("a-login"), "127.0.0.1/32,,,"),
            ("p", "adm", "o-admin", Some("a-login"), "127.0.0.1/32,,,"),
            ("p", "adm", "o-login", Some("a-login"), "::1/128,,,"),
            ("p", "adm", "o-admin", Some("a-login"), "::1/128,,,"),
            ("p", "grp", "o-login", Some("a-login"), ",,,"),
        ]
    );
    assert!(rules.iter().all(|r| r.updated_by == "adm" && r.v4.is_empty() && r.v5.is_empty()));

    let now = Timestamp { secs: 1_735_732_800, nanos: 0 };
    let at = |ip: Option<IpAddress>| ExtendPolicyReq { ip, now };
    let v4_local = at(Some(IpAddress::V4(0x7f00_0001)));
    let v6_local = at(Some(IpAddress::V6(1)));
    let remote = at(Some(IpAddress::V4(0x0a00_0001)));
    assert_eq!(verify_extend_policy_at(&v4_local, &rules[0].v3, now), Ok(true));
    assert_eq!(verify_extend_policy_at(&remote, &rules[0].v3, now), Ok(false));
    assert_eq!(verify_extend_policy_at(&v6_local, &rules[0].v3, now), Ok(false));
    assert_eq!(verify_extend_policy_at(&v6_local, &rules[3].v3, now), Ok(true));
    assert_eq!(verify_extend_policy_at(&remote, &rules[3].v3, now), Ok(false));
    assert_eq!(verify_extend_policy_at(&at(None), &rules[1].v3, now), Ok(false));
    assert_eq!(verify_extend_policy_at(&remote, &rules[4].v3, now), Ok(true));
}
