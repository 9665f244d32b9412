use aeroxe_backend::database::{
    history_context_settings, sanitize_ip_address, truncate_user_agent, ContextValue,
};

#[test]
fn sanitize_ip_keeps_ip_characters() {
    assert_eq!(sanitize_ip_address("192.168.1.10"), "192.168.1.10");
    assert_eq!(sanitize_ip_address("10.0.0.1'; DROP TABLE users;--"), "10.0.0.1DABEe");
    assert_eq!(sanitize_ip_address("fe80::1aF"), "fe80::1aF");
    assert_eq!(sanitize_ip_address("bcde"), "bcde");
    assert_eq!(sanitize_ip_address("2001:db8::1"), "2001:db8::1");
    assert_eq!(sanitize_ip_address("ghost"), "unknown");
    assert_eq!(sanitize_ip_address(""), "unknown");
    let long = "1".repeat(60);
    assert_eq!(sanitize_ip_address(&long), "1".repeat(45));
}

#[test]
fn user_agent_truncated_to_512_chars() {
    assert_eq!(truncate_user_agent("Mozilla/5.0"), "Mozilla/5.0");
    let long: String = "é".repeat(600);
    assert_eq!(truncate_user_agent(&long).chars().count(), 512);
    assert_eq!(truncate_user_agent(&long), "é".repeat(512));
}

#[test]
fn history_settings_order() {
    let s = history_context_settings(7, Some(3), Some("10.1.1.1 x"), Some("curl"));
    assert_eq!(s.len(), 4);
    assert_eq!(s[0].statement, "SELECT set_config('app.current_user_id', $1, true)");
    assert!(matches!(s[0].value, ContextValue::BigInt(7)));
    assert_eq!(s[1].statement, "SELECT set_config('app.current_branch_id', $1, true)");
    assert!(matches!(s[1].value, ContextValue::BigInt(3)));
    assert_eq!(s[2].statement, "SELECT set_config('app.current_ip_address', $1, true)");
    match &s[2].value {
        ContextValue::Text(t) => assert_eq!(t, "10.1.1.1"),
        other => panic!("unexpected {:?}", other),
    }
    assert_eq!(s[3].statement, "SELECT set_config('app.current_user_agent', $1, true)");
    let only_user = history_context_settings(7, None, None, None);
    assert_eq!(only_user.len(), 1);
}
