use aeroxe_backend::workers::{integration_levels, integration_table};

#[test]
fn integrations_in_report_order() {
    let t = integration_table();
    let names: Vec<&str> = t.iter().map(|i| i.name).collect();
    assert_eq!(
        names,
        vec!["smtp", "sms_msg91", "sms_twilio", "whatsapp", "fcm", "radius", "mikrotik", "huawei_olt"]
    );
    assert_eq!(t[0].required, vec!["SMTP_USERNAME", "SMTP_PASSWORD"]);
    assert_eq!(t[3].required, vec!["WHATSAPP_ACCESS_TOKEN", "WHATSAPP_PHONE_NUMBER_ID"]);
    assert_eq!(t[7].required, vec!["HUAWEI_OLT_PASSWORD"]);
    assert_eq!(t[5].missing_effect, "RADIUS is not configured — PPPoE authentication and accounting will fail");
    assert_eq!(t[1].detail, Some(("sender", "MSG91_SENDER_ID")));
    assert_eq!(t[2].detail, None);
    assert_eq!(t[6].configured_message, "MikroTik device management configured");
}

#[test]
fn integration_warns_when_a_setting_is_empty() {
    let values = vec![
        vec!["user".to_string(), "pass".to_string()],
        vec!["user".to_string(), String::new()],
        vec![String::new()],
        vec![],
    ];
    assert_eq!(integration_levels(&values), vec![false, true, true, false]);
}
