use rustion::database::Log;
use rustion::models::user::User;
use rustion::roles::{CasbinName, CasbinRule};
use rustion::viewer::ViewerData;

#[test]
fn viewer_user_columns_fit_names() {
    let mut a = User::new("adm".to_string());
    a.username = "alice".to_string();
    let mut b = User::new("adm".to_string());
    b.username = "日本語の名前です".to_string();
    b.email = Some("b@example.org".to_string());
    assert_eq!(
        ViewerData::Users(vec![a]).constraint_len_calculator(),
        vec![36, 8, 5, 13, 15, 15, 9, 36, 14]
    );
    let mut c = User::new("adm".to_string());
    c.username = "bob".to_string();
    assert_eq!(
        ViewerData::Users(vec![c, b]).constraint_len_calculator(),
        vec![36, 16, 13, 13, 15, 15, 9, 36, 14]
    );
    assert_eq!(ViewerData::Users(vec![]).constraint_len_calculator()[1], 8);
}

#[test]
fn viewer_fixed_and_measured_columns() {
    assert_eq!(ViewerData::TargetSecrets(vec![]).constraint_len_calculator(), vec![36, 36, 36, 9, 36, 14]);
    let rule = CasbinRule::new(
        "p".to_string(),
        "s".to_string(),
        "o".to_string(),
        Some("a".to_string()),
        "10.0.0.0/8,,,".to_string(),
        String::new(),
        "xyz".to_string(),
        "adm".to_string(),
    );
    assert_eq!(
        ViewerData::CasbinRule(vec![rule]).constraint_len_calculator(),
        vec![36, 5, 36, 36, 36, 13, 2, 3, 36, 14]
    );
    let name = CasbinName::new("__internal_action_type".to_string(), "ssh".to_string(), true, "adm".to_string());
    assert_eq!(ViewerData::CasbinNames(vec![name]).constraint_len_calculator(), vec![36, 22, 4, 9, 36, 14]);
    let log = Log {
        connection_id: "c".to_string(),
        log_type: "login".to_string(),
        user_id: "u".to_string(),
        detail: "accepted publickey".to_string(),
        created_at: 0,
    };
    assert_eq!(ViewerData::Logs(vec![log]).constraint_len_calculator(), vec![36, 8, 36, 18, 14]);
}

#[test]
fn viewer_widths_cover_headers() {
    let tables = vec![
        ViewerData::Users(vec![]),
        ViewerData::TargetSecrets(vec![]),
        ViewerData::CasbinNames(vec![]),
        ViewerData::CasbinRule(vec![]),
        ViewerData::Logs(vec![]),
    ];
    for t in &tables {
        let h = t.header();
        let w = t.constraint_len_calculator();
        assert_eq!(h.len(), w.len());
        assert!(h.iter().zip(w.iter()).all(|(h, w)| *w as usize >= h.len()));
    }
    assert_eq!(ViewerData::Logs(vec![]).header(), vec!["connection_id", "log_type", "user_id", "detail", "created_at"]);
}
