use aeroxe_backend::error::AppError;
use aeroxe_backend::rbac::{has_permission, matches_wildcard, require_permission, PermissionGate, RequirePermission, UserContext};

#[test]
fn test_wildcard_permission() {
    assert!(matches_wildcard("device.*.view", "device.router.view"));
    assert!(matches_wildcard("device.*.view", "device.olt.view"));
    assert!(!matches_wildcard("device.*.view", "device.router.restart"));
    assert!(!matches_wildcard("device.*.view", "billing.invoice.view"));
}

#[test]
fn test_exact_permission() {
    assert!(matches_wildcard("auth.login", "auth.login"));
    assert!(!matches_wildcard("auth.login", "auth.logout"));
}

#[test]
fn wildcard_segment_counts_must_agree() {
    assert!(!matches_wildcard("device.*", "device.router.view"));
    assert!(matches_wildcard("*.*.*", "a.b.c"));
    assert!(matches_wildcard("", ""));
    assert!(!matches_wildcard("*", "a.b"));
    assert!(matches_wildcard("a..b", "a..b"));
    assert!(matches_wildcard("a.*.b", "a..b"));
}

fn user(role: &str, company_wide: bool, perms: &[&str]) -> UserContext {
    UserContext {
        user_id: 3,
        email: "x@aeroxe.com".to_string(),
        role: role.to_string(),
        branch_id: None,
        is_company_wide: company_wide,
        permissions: perms.iter().map(|p| p.to_string()).collect(),
    }
}

#[test]
fn has_permission_rules() {
    assert!(has_permission(&user("super_admin", true, &[]), "anything.at.all"));
    assert!(!has_permission(&user("super_admin", false, &[]), "billing.invoice.view"));
    assert!(!has_permission(&user("admin", true, &[]), "billing.invoice.view"));
    let u = user("noc_engineer", false, &["device.*.view", "ticket.create"]);
    assert!(has_permission(&u, "device.olt.view"));
    assert!(has_permission(&u, "ticket.create"));
    assert!(!has_permission(&u, "ticket.close"));
}

#[test]
fn require_permission_reports_missing_one() {
    let u = user("agent", false, &["lead.view"]);
    assert!(require_permission(&u, "lead.view").is_ok());
    match require_permission(&u, "lead.delete") {
        Err(AppError::Forbidden(m)) => assert_eq!(m, "Missing permission: lead.delete"),
        other => panic!("unexpected {:?}", other),
    }
}

#[test]
fn permission_gate_decisions() {
    let svc = RequirePermission::new("device.router.view").layer(());
    let allowed = user("noc", false, &["device.*.view"]);
    let denied = user("noc", false, &["billing.invoice.view"]);
    assert_eq!(svc.gate(Some(&allowed)), PermissionGate::Forward);
    assert_eq!(svc.gate(Some(&denied)), PermissionGate::Forbidden);
    assert_eq!(svc.gate(None), PermissionGate::Unauthorized);
    assert_eq!(svc.permission, "device.router.view");
}
