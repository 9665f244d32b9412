//! Decisions of the background workers and of the boot-time checks: which
//! counter a worker cycle bumps, when the monthly partition job runs, which
//! NATS subjects the subscribers listen on, and whether an integration is
//! configured.
use vstd::prelude::*;

use crate::text::owned;

verus! {

/// How a worker cycle ended.
#[derive(Debug, Clone, Copy, PartialEq, Eq, Structural)]
pub enum CycleOutcome {
    Completed,
    Failed,
    Panicked,
}

/// Counter family a worker cycle is counted in.
#[derive(Debug, Clone, Copy, PartialEq, Eq, Structural)]
pub enum CycleCounter {
    /// `aeroxe_worker_cycles_total`
    Cycles,
    /// `aeroxe_worker_errors_total`
    Errors,
}

/// Completed cycles count as cycles; failed and panicked ones as errors.
pub fn cycle_counter(outcome: CycleOutcome) -> (c: CycleCounter)
    ensures
        outcome == CycleOutcome::Completed ==> c == CycleCounter::Cycles,
        outcome != CycleOutcome::Completed ==> c == CycleCounter::Errors,
{
    match outcome {
        CycleOutcome::Completed => CycleCounter::Cycles,
        _ => CycleCounter::Errors,
    }
}

/// The partition worker creates next month's partitions (and cleans old
/// ones) only on the first day of the month.
pub fn partition_due(day_of_month: u32) -> (b: bool)
    ensures
        b == (day_of_month == 1),
{
    day_of_month == 1
}

/// Subjects the event subscribers listen on, in start order: customer,
/// subscription, invoice, payment, device, VLAN, PPPoE, ticket and
/// installation events.
pub open spec fn subscriber_subject_seq() -> Seq<Seq<char>> {
    seq![
        "events.customer.>"@,
        "events.subscription.>"@,
        "events.invoice.>"@,
        "events.payment.>"@,
        "events.device.>"@,
        "events.vlan.>"@,
        "events.pppoe.>"@,
        "events.ticket.>"@,
        "events.installation.>"@,
    ]
}

/// Subjects the event subscribers listen on.
pub fn subscriber_subjects() -> (v: Vec<String>)
    ensures
        v@.len() == 9,
        forall|i: int| 0 <= i < 9 ==> #[trigger] v@[i]@ == subscriber_subject_seq()[i],
{
    let mut v: Vec<String> = Vec::new();
    v.push(owned("events.customer.>"));
    v.push(owned("events.subscription.>"));
    v.push(owned("events.invoice.>"));
    v.push(owned("events.payment.>"));
    v.push(owned("events.device.>"));
    v.push(owned("events.vlan.>"));
    v.push(owned("events.pppoe.>"));
    v.push(owned("events.ticket.>"));
    v.push(owned("events.installation.>"));
    v
}

/// An integration is configured when none of its required settings is empty.
pub fn integration_configured(required: &Vec<String>) -> (b: bool)
    ensures
        b == forall|i: int| 0 <= i < required@.len() ==> #[trigger] required@[i]@.len() > 0,
{
    let mut i: usize = 0;
    while i < required.len()
        invariant
            i <= required@.len(),
            forall|j: int| 0 <= j < i ==> #[trigger] required@[j]@.len() > 0,
        decreases required.len() - i,
    {
        if required[i].as_str().is_empty() {
            return false;
        }
        i = i + 1;
    }
    true
}

/// An external integration checked at start-up: its name, the settings it
/// needs, what is lost without it, what is logged when it is configured, and
/// the setting shown with that message (its label and name), if any.
pub struct IntegrationSpec {
    pub name: &'static str,
    pub required: Vec<&'static str>,
    pub missing_effect: &'static str,
    pub configured_message: &'static str,
    pub detail: Option<(&'static str, &'static str)>,
}

/// An integration as plain values.
pub struct IntegrationModel {
    pub name: Seq<char>,
    pub required: Seq<Seq<char>>,
    pub missing_effect: Seq<char>,
    pub configured_message: Seq<char>,
    pub detail: Option<(Seq<char>, Seq<char>)>,
}

/// The plain values of an integration.
pub open spec fn integration_view(i: IntegrationSpec) -> IntegrationModel {
    IntegrationModel {
        name: i.name@,
        required: i.required@.map_values(|r: &'static str| r@),
        missing_effect: i.missing_effect@,
        configured_message: i.configured_message@,
        detail: match i.detail {
            Some((label, setting)) => Some((label@, setting@)),
            None => None,
        },
    }
}

/// The integrations checked at start-up, in the order they are reported:
/// SMTP, MSG91, Twilio, WhatsApp, FCM, RADIUS, MikroTik and the Huawei OLT.
pub open spec fn integration_catalogue() -> Seq<IntegrationModel> {
    seq![
        IntegrationModel {
            name: "smtp"@,
            required: seq!["SMTP_USERNAME"@, "SMTP_PASSWORD"@],
            missing_effect: "SMTP email delivery is not configured — invoice and alert emails will be unavailable"@,
            configured_message: "SMTP email delivery configured"@,
            detail: Some(("host"@, "SMTP_HOST"@)),
        },
        IntegrationModel {
            name: "sms_msg91"@,
            required: seq!["MSG91_AUTH_KEY"@],
            missing_effect: "MSG91 SMS delivery is not configured — OTP and SMS notifications will be unavailable"@,
            configured_message: "MSG91 SMS delivery configured"@,
            detail: Some(("sender"@, "MSG91_SENDER_ID"@)),
        },
        IntegrationModel {
            name: "sms_twilio"@,
            required: seq!["TWILIO_ACCOUNT_SID"@, "TWILIO_AUTH_TOKEN"@],
            missing_effect: "Twilio SMS delivery is not configured"@,
            configured_message: "Twilio SMS delivery configured"@,
            detail: None,
        },
        IntegrationModel {
            name: "whatsapp"@,
            required: seq!["WHATSAPP_ACCESS_TOKEN"@, "WHATSAPP_PHONE_NUMBER_ID"@],
            missing_effect: "WhatsApp Business API is not configured — WhatsApp OTP and notifications will be unavailable"@,
            configured_message: "WhatsApp Business API configured"@,
            detail: None,
        },
        IntegrationModel {
            name: "fcm"@,
            required: seq!["FCM_SERVICE_ACCOUNT_KEY"@, "FCM_PROJECT_ID"@],
            missing_effect: "FCM push notifications are not configured — mobile app alerts will be unavailable"@,
            configured_message: "FCM push notifications configured"@,
            detail: None,
        },
        IntegrationModel {
            name: "radius"@,
            required: seq!["RADIUS_SECRET"@],
            missing_effect: "RADIUS is not configured — PPPoE authentication and accounting will fail"@,
            configured_message: "RADIUS authentication configured"@,
            detail: Some(("server"@, "RADIUS_SERVER"@)),
        },
        IntegrationModel {
            name: "mikrotik"@,
            required: seq!["MIKROTIK_PASSWORD"@],
            missing_effect: "MikroTik device management is not configured — device sync and bandwidth provisioning will be unavailable"@,
            configured_message: "MikroTik device management configured"@,
            detail: Some(("host"@, "MIKROTIK_HOST"@)),
        },
        IntegrationModel {
            name: "huawei_olt"@,
            required: seq!["HUAWEI_OLT_PASSWORD"@],
            missing_effect: "Huawei OLT management is not configured — GPON provisioning will be unavailable"@,
            configured_message: "Huawei OLT management configured"@,
            detail: Some(("host"@, "HUAWEI_OLT_HOST"@)),
        },
    ]
}

/// The integrations checked at start-up, in report order.
pub fn integration_table() -> (t: Vec<IntegrationSpec>)
    ensures
        t@.len() == integration_catalogue().len(),
        forall|i: int| 0 <= i < t@.len() ==> #[trigger] integration_view(t@[i]) == integration_catalogue()[i],
{
    let t = vec![
        IntegrationSpec {
            name: "smtp",
            required: vec!["SMTP_USERNAME", "SMTP_PASSWORD"],
            missing_effect: "SMTP email delivery is not configured — invoice and alert emails will be unavailable",
            configured_message: "SMTP email delivery configured",
            detail: Some(("host", "SMTP_HOST")),
        },
        IntegrationSpec {
            name: "sms_msg91",
            required: vec!["MSG91_AUTH_KEY"],
            missing_effect: "MSG91 SMS delivery is not configured — OTP and SMS notifications will be unavailable",
            configured_message: "MSG91 SMS delivery configured",
            detail: Some(("sender", "MSG91_SENDER_ID")),
        },
        IntegrationSpec {
            name: "sms_twilio",
            required: vec!["TWILIO_ACCOUNT_SID", "TWILIO_AUTH_TOKEN"],
            missing_effect: "Twilio SMS delivery is not configured",
            configured_message: "Twilio SMS delivery configured",
            detail: None,
        },
        IntegrationSpec {
            name: "whatsapp",
            required: vec!["WHATSAPP_ACCESS_TOKEN", "WHATSAPP_PHONE_NUMBER_ID"],
            missing_effect: "WhatsApp Business API is not configured — WhatsApp OTP and notifications will be unavailable",
            configured_message: "WhatsApp Business API configured",
            detail: None,
        },
        IntegrationSpec {
            name: "fcm",
            required: vec!["FCM_SERVICE_ACCOUNT_KEY", "FCM_PROJECT_ID"],
            missing_effect: "FCM push notifications are not configured — mobile app alerts will be unavailable",
            configured_message: "FCM push notifications configured",
            detail: None,
        },
        IntegrationSpec {
            name: "radius",
            required: vec!["RADIUS_SECRET"],
            missing_effect: "RADIUS is not configured — PPPoE authentication and accounting will fail",
            configured_message: "RADIUS authentication configured",
            detail: Some(("server", "RADIUS_SERVER")),
        },
        IntegrationSpec {
            name: "mikrotik",
            required: vec!["MIKROTIK_PASSWORD"],
            missing_effect: "MikroTik device management is not configured — device sync and bandwidth provisioning will be unavailable",
            configured_message: "MikroTik device management configured",
            detail: Some(("host", "MIKROTIK_HOST")),
        },
        IntegrationSpec {
            name: "huawei_olt",
            required: vec!["HUAWEI_OLT_PASSWORD"],
            missing_effect: "Huawei OLT management is not configured — GPON provisioning will be unavailable",
            configured_message: "Huawei OLT management configured",
            detail: Some(("host", "HUAWEI_OLT_HOST")),
        },
    ];
    proof {
        assert forall|i: int| 0 <= i < t@.len() implies #[trigger] integration_view(t@[i])
            == integration_catalogue()[i] by {
            assert(integration_view(t@[i]).required =~= integration_catalogue()[i].required);
        }
    }
    t
}

/// Which integrations are reported as a warning (not configured), given the
/// values of each one's required settings, in the same order: a warning
/// exactly when one of its settings is empty.
pub fn integration_levels(values: &Vec<Vec<String>>) -> (warn: Vec<bool>)
    ensures
        warn@.len() == values@.len(),
        forall|i: int| 0 <= i < values@.len() ==> #[trigger] warn@[i] == exists|j: int|
            0 <= j < values@[i]@.len() && (#[trigger] values@[i]@[j])@.len() == 0,
{
    let mut warn: Vec<bool> = Vec::new();
    let mut i: usize = 0;
    while i < values.len()
        invariant
            i <= values@.len(),
            warn@.len() == i,
            forall|k: int| 0 <= k < i ==> #[trigger] warn@[k] == exists|j: int|
                0 <= j < values@[k]@.len() && (#[trigger] values@[k]@[j])@.len() == 0,
        decreases values.len() - i,
    {
        let configured = integration_configured(&values[i]);
        warn.push(!configured);
        i = i + 1;
    }
    warn
}

/// Each subscriber listens on `events.<area>.>` for one area of the domain;
/// the areas, in start order, are customer, subscription, invoice, payment,
/// device, VLAN, PPPoE, ticket and installation.
pub proof fn law_subscriber_subjects()
    ensures
        subscriber_subject_seq() == seq!["customer"@, "subscription"@, "invoice"@, "payment"@, "device"@, "vlan"@, "pppoe"@, "ticket"@, "installation"@].map_values(|a: Seq<char>| "events."@ + a + ".>"@),
{
    reveal_strlit("events.");
    reveal_strlit(".>");
    reveal_strlit("customer");
    reveal_strlit("events.customer.>");
    reveal_strlit("subscription");
    reveal_strlit("events.subscription.>");
    reveal_strlit("invoice");
    reveal_strlit("events.invoice.>");
    reveal_strlit("payment");
    reveal_strlit("events.payment.>");
    reveal_strlit("device");
    reveal_strlit("events.device.>");
    reveal_strlit("vlan");
    reveal_strlit("events.vlan.>");
    reveal_strlit("pppoe");
    reveal_strlit("events.pppoe.>");
    reveal_strlit("ticket");
    reveal_strlit("events.ticket.>");
    reveal_strlit("installation");
    reveal_strlit("events.installation.>");
    assert("events."@ + "customer"@ + ".>"@ =~= "events.customer.>"@);
    assert("events."@ + "subscription"@ + ".>"@ =~= "events.subscription.>"@);
    assert("events."@ + "invoice"@ + ".>"@ =~= "events.invoice.>"@);
    assert("events."@ + "payment"@ + ".>"@ =~= "events.payment.>"@);
    assert("events."@ + "device"@ + ".>"@ =~= "events.device.>"@);
    assert("events."@ + "vlan"@ + ".>"@ =~= "events.vlan.>"@);
    assert("events."@ + "pppoe"@ + ".>"@ =~= "events.pppoe.>"@);
    assert("events."@ + "ticket"@ + ".>"@ =~= "events.ticket.>"@);
    assert("events."@ + "installation"@ + ".>"@ =~= "events.installation.>"@);
    assert(subscriber_subject_seq() =~= seq!["customer"@, "subscription"@, "invoice"@, "payment"@, "device"@, "vlan"@, "pppoe"@, "ticket"@, "installation"@].map_values(|a: Seq<char>| "events."@ + a + ".>"@));
}

/// The integrations checked at start-up and the settings each one needs:
/// SMTP needs a username and password, MSG91 its auth key, Twilio its
/// account SID and auth token, WhatsApp an access token and phone number id,
/// FCM a service account key and project id, RADIUS its secret, MikroTik and
/// the Huawei OLT their passwords.
pub proof fn law_integration_requirements()
    ensures
        integration_catalogue().len() == 8,
        integration_catalogue()[0].name == "smtp"@,
        integration_catalogue()[0].required == seq!["SMTP_USERNAME"@, "SMTP_PASSWORD"@],
        integration_catalogue()[1].name == "sms_msg91"@,
        integration_catalogue()[1].required == seq!["MSG91_AUTH_KEY"@],
        integration_catalogue()[2].name == "sms_twilio"@,
        integration_catalogue()[2].required == seq!["TWILIO_ACCOUNT_SID"@, "TWILIO_AUTH_TOKEN"@],
        integration_catalogue()[3].name == "whatsapp"@,
        integration_catalogue()[3].required == seq!["WHATSAPP_ACCESS_TOKEN"@, "WHATSAPP_PHONE_NUMBER_ID"@],
        integration_catalogue()[4].name == "fcm"@,
        integration_catalogue()[4].required == seq!["FCM_SERVICE_ACCOUNT_KEY"@, "FCM_PROJECT_ID"@],
        integration_catalogue()[5].name == "radius"@,
        integration_catalogue()[5].required == seq!["RADIUS_SECRET"@],
        integration_catalogue()[6].name == "mikrotik"@,
        integration_catalogue()[6].required == seq!["MIKROTIK_PASSWORD"@],
        integration_catalogue()[7].name == "huawei_olt"@,
        integration_catalogue()[7].required == seq!["HUAWEI_OLT_PASSWORD"@],
{
}

} // verus!
