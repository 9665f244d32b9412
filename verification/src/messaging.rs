//! Domain event plumbing: the envelope every event travels in, the NATS
//! subject names, the JetStream stream settings, and the reconnect policy of
//! the NATS supervisor.
use vstd::prelude::*;

use crate::text::owned;

verus! {

/// A hyphenated lower-case UUID rendering: 36 characters, dashes at
/// positions 8, 13, 18 and 23, lower-case hex digits elsewhere.
pub open spec fn is_hyphenated_uuid(s: Seq<char>) -> bool {
    &&& s.len() == 36
    &&& forall|i: int| 0 <= i < 36 ==> (if i == 8 || i == 13 || i == 18 || i == 23 {
        #[trigger] s[i] == '-'
    } else {
        ('0' <= s[i] <= '9') || ('a' <= s[i] <= 'f')
    })
}

/// `uuid::Uuid::new_v4().to_string()`: a fresh random UUID. The claim is only
/// its textual shape (uuid's `Display` writes the hyphenated lower-case form);
/// the value itself is random.
#[verifier::external_body]
pub(crate) fn new_event_id() -> (id: String)
    ensures
        is_hyphenated_uuid(id@),
{
    uuid::Uuid::new_v4().to_string()
}

/// RFC 3339 text of a UTC time whose offset is written `+00:00`.
pub open spec fn ends_with_utc_offset(s: Seq<char>) -> bool {
    s.len() >= 6 && s.skip(s.len() - 6) == seq!['+', '0', '0', ':', '0', '0']
}

/// RFC 3339 text of a UTC time whose offset is written `Z`, the form in which
/// chrono serialises a `DateTime<Utc>`.
pub open spec fn ends_with_zulu(s: Seq<char>) -> bool {
    s.len() >= 1 && s.last() == 'Z'
}

/// `chrono::Utc::now().to_rfc3339()`: the current time as RFC 3339 text.
/// chrono writes the zero UTC offset as `+00:00` (`write_rfc3339` without
/// `use_z`); the time itself depends on the clock and is not stated.
#[verifier::external_body]
pub(crate) fn now_rfc3339() -> (s: String)
    ensures
        ends_with_utc_offset(s@),
{
    chrono::Utc::now().to_rfc3339()
}

/// `chrono::Utc::now().to_rfc3339_opts(SecondsFormat::AutoSi, true)`: the
/// current time as RFC 3339 text with the UTC offset written `Z`, exactly as
/// chrono's serde writes a `DateTime<Utc>`; the time itself depends on the
/// clock and is not stated.
#[verifier::external_body]
pub(crate) fn now_rfc3339_zulu() -> (s: String)
    ensures
        ends_with_zulu(s@),
{
    chrono::Utc::now().to_rfc3339_opts(chrono::SecondsFormat::AutoSi, true)
}

/// Event envelope for all domain events.
pub struct EventEnvelope<T> {
    pub event_id: String,
    pub event_type: String,
    pub version: u32,
    /// RFC 3339 time (UTC) at which the event occurred.
    pub occurred_at: String,
    pub producer: String,
    pub payload: T,
}

impl<T> EventEnvelope<T> {
    /// A new envelope, version 1, with a fresh event id and the current time
    /// in the form a serialised `DateTime<Utc>` takes (offset `Z`).
    pub fn new(event_type: String, producer: String, payload: T) -> (e: Self)
        ensures
            e.event_type == event_type,
            e.producer == producer,
            e.payload == payload,
            e.version == 1,
            is_hyphenated_uuid(e.event_id@),
            ends_with_zulu(e.occurred_at@),
    {
        EventEnvelope {
            event_id: new_event_id(),
            event_type,
            version: 1,
            occurred_at: now_rfc3339_zulu(),
            producer,
            payload,
        }
    }

    /// The envelope the outbox worker publishes a stored event in: producer
    /// `outbox-worker`, version 1, fresh id, and the current time as RFC 3339
    /// text with the offset `+00:00`.
    pub fn from_outbox(event_type: String, payload: T) -> (e: Self)
        ensures
            e.event_type == event_type,
            e.producer@ == "outbox-worker"@,
            e.payload == payload,
            e.version == 1,
            is_hyphenated_uuid(e.event_id@),
            ends_with_utc_offset(e.occurred_at@),
    {
        EventEnvelope {
            event_id: new_event_id(),
            event_type,
            version: 1,
            occurred_at: now_rfc3339(),
            producer: owned("outbox-worker"),
            payload,
        }
    }
}

/// NATS subject naming convention: `aeroxe.<context>.<entity>.<action>.<version>`;
/// every subject starts with `aeroxe.` and ends with the version `.v1`.
pub open spec fn follows_subject_convention(s: Seq<char>) -> bool {
    &&& s.len() >= 10
    &&& s.take(7) == seq!['a', 'e', 'r', 'o', 'x', 'e', '.']
    &&& s.skip(s.len() - 3) == seq!['.', 'v', '1']
}

/// A subject whose characters spell `aeroxe.` at the front and `.v1` at the
/// end follows the convention.
proof fn lemma_subject_convention(s: Seq<char>)
    requires
        s.len() >= 10,
        s[0] == 'a' && s[1] == 'e' && s[2] == 'r' && s[3] == 'o' && s[4] == 'x' && s[5] == 'e' && s[6] == '.',
        s[s.len() - 3] == '.' && s[s.len() - 2] == 'v' && s[s.len() - 1] == '1',
    ensures
        follows_subject_convention(s),
{
    assert(s.take(7) =~= seq!['a', 'e', 'r', 'o', 'x', 'e', '.']);
    assert(s.skip(s.len() - 3) =~= seq!['.', 'v', '1']);
}

/// NATS subject names of the domain events.
pub struct NatsSubjects;

impl NatsSubjects {
    // Customer events
    /// `aeroxe.customer.created.v1`
    pub fn customer_created() -> (s: String)
        ensures
            s@ == "aeroxe.customer.created.v1"@,
            follows_subject_convention(s@),
    {
        proof {
            reveal_strlit("aeroxe.customer.created.v1");
            lemma_subject_convention("aeroxe.customer.created.v1"@);
        }
        owned("aeroxe.customer.created.v1")
    }
    /// `aeroxe.customer.activated.v1`
    pub fn customer_activated() -> (s: String)
        ensures
            s@ == "aeroxe.customer.activated.v1"@,
            follows_subject_convention(s@),
    {
        proof {
            reveal_strlit("aeroxe.customer.activated.v1");
            lemma_subject_convention("aeroxe.customer.activated.v1"@);
        }
        owned("aeroxe.customer.activated.v1")
    }
    /// `aeroxe.customer.suspended.v1`
    pub fn customer_suspended() -> (s: String)
        ensures
            s@ == "aeroxe.customer.suspended.v1"@,
            follows_subject_convention(s@),
    {
        proof {
            reveal_strlit("aeroxe.customer.suspended.v1");
            lemma_subject_convention("aeroxe.customer.suspended.v1"@);
        }
        owned("aeroxe.customer.suspended.v1")
    }
    /// `aeroxe.customer.reactivated.v1`
    pub fn customer_reactivated() -> (s: String)
        ensures
            s@ == "aeroxe.customer.reactivated.v1"@,
            follows_subject_convention(s@),
    {
        proof {
            reveal_strlit("aeroxe.customer.reactivated.v1");
            lemma_subject_convention("aeroxe.customer.reactivated.v1"@);
        }
        owned("aeroxe.customer.reactivated.v1")
    }
    /// `aeroxe.customer.terminated.v1`
    pub fn customer_terminated() -> (s: String)
        ensures
            s@ == "aeroxe.customer.terminated.v1"@,
            follows_subject_convention(s@),
    {
        proof {
            reveal_strlit("aeroxe.customer.terminated.v1");
            lemma_subject_convention("aeroxe.customer.terminated.v1"@);
        }
        owned("aeroxe.customer.terminated.v1")
    }
    /// `aeroxe.customer.kyc.submitted.v1`
    pub fn customer_kyc_submitted() -> (s: String)
        ensures
            s@ == "aeroxe.customer.kyc.submitted.v1"@,
            follows_subject_convention(s@),
    {
        proof {
            reveal_strlit("aeroxe.customer.kyc.submitted.v1");
            lemma_subject_convention("aeroxe.customer.kyc.submitted.v1"@);
        }
        owned("aeroxe.customer.kyc.submitted.v1")
    }
    /// `aeroxe.customer.kyc.verified.v1`
    pub fn customer_kyc_verified() -> (s: String)
        ensures
            s@ == "aeroxe.customer.kyc.verified.v1"@,
            follows_subject_convention(s@),
    {
        proof {
            reveal_strlit("aeroxe.customer.kyc.verified.v1");
            lemma_subject_convention("aeroxe.customer.kyc.verified.v1"@);
        }
        owned("aeroxe.customer.kyc.verified.v1")
    }

    // Subscription events
    /// `aeroxe.subscription.created.v1`
    pub fn subscription_created() -> (s: String)
        ensures
            s@ == "aeroxe.subscription.created.v1"@,
            follows_subject_convention(s@),
    {
        proof {
            reveal_strlit("aeroxe.subscription.created.v1");
            lemma_subject_convention("aeroxe.subscription.created.v1"@);
        }
        owned("aeroxe.subscription.created.v1")
    }
    /// `aeroxe.subscription.renewed.v1`
    pub fn subscription_renewed() -> (s: String)
        ensures
            s@ == "aeroxe.subscription.renewed.v1"@,
            follows_subject_convention(s@),
    {
        proof {
            reveal_strlit("aeroxe.subscription.renewed.v1");
            lemma_subject_convention("aeroxe.subscription.renewed.v1"@);
        }
        owned("aeroxe.subscription.renewed.v1")
    }
    /// `aeroxe.subscription.suspended.v1`
    pub fn subscription_suspended() -> (s: String)
        ensures
            s@ == "aeroxe.subscription.suspended.v1"@,
            follows_subject_convention(s@),
    {
        proof {
            reveal_strlit("aeroxe.subscription.suspended.v1");
            lemma_subject_convention("aeroxe.subscription.suspended.v1"@);
        }
        owned("aeroxe.subscription.suspended.v1")
    }
    /// `aeroxe.subscription.reactivated.v1`
    pub fn subscription_reactivated() -> (s: String)
        ensures
            s@ == "aeroxe.subscription.reactivated.v1"@,
            follows_subject_convention(s@),
    {
        proof {
            reveal_strlit("aeroxe.subscription.reactivated.v1");
            lemma_subject_convention("aeroxe.subscription.reactivated.v1"@);
        }
        owned("aeroxe.subscription.reactivated.v1")
    }
    /// `aeroxe.subscription.cancelled.v1`
    pub fn subscription_cancelled() -> (s: String)
        ensures
            s@ == "aeroxe.subscription.cancelled.v1"@,
            follows_subject_convention(s@),
    {
        proof {
            reveal_strlit("aeroxe.subscription.cancelled.v1");
            lemma_subject_convention("aeroxe.subscription.cancelled.v1"@);
        }
        owned("aeroxe.subscription.cancelled.v1")
    }
    /// `aeroxe.subscription.upgraded.v1`
    pub fn subscription_upgraded() -> (s: String)
        ensures
            s@ == "aeroxe.subscription.upgraded.v1"@,
            follows_subject_convention(s@),
    {
        proof {
            reveal_strlit("aeroxe.subscription.upgraded.v1");
            lemma_subject_convention("aeroxe.subscription.upgraded.v1"@);
        }
        owned("aeroxe.subscription.upgraded.v1")
    }
    /// `aeroxe.subscription.downgraded.v1`
    pub fn subscription_downgraded() -> (s: String)
        ensures
            s@ == "aeroxe.subscription.downgraded.v1"@,
            follows_subject_convention(s@),
    {
        proof {
            reveal_strlit("aeroxe.subscription.downgraded.v1");
            lemma_subject_convention("aeroxe.subscription.downgraded.v1"@);
        }
        owned("aeroxe.subscription.downgraded.v1")
    }

    // Billing events
    /// `aeroxe.invoice.generated.v1`
    pub fn invoice_generated() -> (s: String)
        ensures
            s@ == "aeroxe.invoice.generated.v1"@,
            follows_subject_convention(s@),
    {
        proof {
            reveal_strlit("aeroxe.invoice.generated.v1");
            lemma_subject_convention("aeroxe.invoice.generated.v1"@);
        }
        owned("aeroxe.invoice.generated.v1")
    }
    /// `aeroxe.invoice.sent.v1`
    pub fn invoice_sent() -> (s: String)
        ensures
            s@ == "aeroxe.invoice.sent.v1"@,
            follows_subject_convention(s@),
    {
        proof {
            reveal_strlit("aeroxe.invoice.sent.v1");
            lemma_subject_convention("aeroxe.invoice.sent.v1"@);
        }
        owned("aeroxe.invoice.sent.v1")
    }
    /// `aeroxe.invoice.paid.v1`
    pub fn invoice_paid() -> (s: String)
        ensures
            s@ == "aeroxe.invoice.paid.v1"@,
            follows_subject_convention(s@),
    {
        proof {
            reveal_strlit("aeroxe.invoice.paid.v1");
            lemma_subject_convention("aeroxe.invoice.paid.v1"@);
        }
        owned("aeroxe.invoice.paid.v1")
    }
    /// `aeroxe.invoice.overdue.v1`
    pub fn invoice_overdue() -> (s: String)
        ensures
            s@ == "aeroxe.invoice.overdue.v1"@,
            follows_subject_convention(s@),
    {
        proof {
            reveal_strlit("aeroxe.invoice.overdue.v1");
            lemma_subject_convention("aeroxe.invoice.overdue.v1"@);
        }
        owned("aeroxe.invoice.overdue.v1")
    }
    /// `aeroxe.invoice.voided.v1`
    pub fn invoice_voided() -> (s: String)
        ensures
            s@ == "aeroxe.invoice.voided.v1"@,
            follows_subject_convention(s@),
    {
        proof {
            reveal_strlit("aeroxe.invoice.voided.v1");
            lemma_subject_convention("aeroxe.invoice.voided.v1"@);
        }
        owned("aeroxe.invoice.voided.v1")
    }
    /// `aeroxe.payment.completed.v1`
    pub fn payment_completed() -> (s: String)
        ensures
            s@ == "aeroxe.payment.completed.v1"@,
            follows_subject_convention(s@),
    {
        proof {
            reveal_strlit("aeroxe.payment.completed.v1");
            lemma_subject_convention("aeroxe.payment.completed.v1"@);
        }
        owned("aeroxe.payment.completed.v1")
    }
    /// `aeroxe.payment.failed.v1`
    pub fn payment_failed() -> (s: String)
        ensures
            s@ == "aeroxe.payment.failed.v1"@,
            follows_subject_convention(s@),
    {
        proof {
            reveal_strlit("aeroxe.payment.failed.v1");
            lemma_subject_convention("aeroxe.payment.failed.v1"@);
        }
        owned("aeroxe.payment.failed.v1")
    }
    /// `aeroxe.refund.approved.v1`
    pub fn refund_approved() -> (s: String)
        ensures
            s@ == "aeroxe.refund.approved.v1"@,
            follows_subject_convention(s@),
    {
        proof {
            reveal_strlit("aeroxe.refund.approved.v1");
            lemma_subject_convention("aeroxe.refund.approved.v1"@);
        }
        owned("aeroxe.refund.approved.v1")
    }
    /// `aeroxe.refund.processed.v1`
    pub fn refund_processed() -> (s: String)
        ensures
            s@ == "aeroxe.refund.processed.v1"@,
            follows_subject_convention(s@),
    {
        proof {
            reveal_strlit("aeroxe.refund.processed.v1");
            lemma_subject_convention("aeroxe.refund.processed.v1"@);
        }
        owned("aeroxe.refund.processed.v1")
    }

    // Device events
    /// `aeroxe.device.registered.v1`
    pub fn device_registered() -> (s: String)
        ensures
            s@ == "aeroxe.device.registered.v1"@,
            follows_subject_convention(s@),
    {
        proof {
            reveal_strlit("aeroxe.device.registered.v1");
            lemma_subject_convention("aeroxe.device.registered.v1"@);
        }
        owned("aeroxe.device.registered.v1")
    }
    /// `aeroxe.device.status.changed.v1`
    pub fn device_status_changed() -> (s: String)
        ensures
            s@ == "aeroxe.device.status.changed.v1"@,
            follows_subject_convention(s@),
    {
        proof {
            reveal_strlit("aeroxe.device.status.changed.v1");
            lemma_subject_convention("aeroxe.device.status.changed.v1"@);
        }
        owned("aeroxe.device.status.changed.v1")
    }
    /// `aeroxe.device.discovered.v1`
    pub fn device_discovered() -> (s: String)
        ensures
            s@ == "aeroxe.device.discovered.v1"@,
            follows_subject_convention(s@),
    {
        proof {
            reveal_strlit("aeroxe.device.discovered.v1");
            lemma_subject_convention("aeroxe.device.discovered.v1"@);
        }
        owned("aeroxe.device.discovered.v1")
    }

    // Network events
    /// `aeroxe.vlan.created.v1`
    pub fn vlan_created() -> (s: String)
        ensures
            s@ == "aeroxe.vlan.created.v1"@,
            follows_subject_convention(s@),
    {
        proof {
            reveal_strlit("aeroxe.vlan.created.v1");
            lemma_subject_convention("aeroxe.vlan.created.v1"@);
        }
        owned("aeroxe.vlan.created.v1")
    }
    /// `aeroxe.vlan.deleted.v1`
    pub fn vlan_deleted() -> (s: String)
        ensures
            s@ == "aeroxe.vlan.deleted.v1"@,
            follows_subject_convention(s@),
    {
        proof {
            reveal_strlit("aeroxe.vlan.deleted.v1");
            lemma_subject_convention("aeroxe.vlan.deleted.v1"@);
        }
        owned("aeroxe.vlan.deleted.v1")
    }
    /// `aeroxe.pppoe.session.started.v1`
    pub fn pppoe_session_started() -> (s: String)
        ensures
            s@ == "aeroxe.pppoe.session.started.v1"@,
            follows_subject_convention(s@),
    {
        proof {
            reveal_strlit("aeroxe.pppoe.session.started.v1");
            lemma_subject_convention("aeroxe.pppoe.session.started.v1"@);
        }
        owned("aeroxe.pppoe.session.started.v1")
    }
    /// `aeroxe.pppoe.session.ended.v1`
    pub fn pppoe_session_ended() -> (s: String)
        ensures
            s@ == "aeroxe.pppoe.session.ended.v1"@,
            follows_subject_convention(s@),
    {
        proof {
            reveal_strlit("aeroxe.pppoe.session.ended.v1");
            lemma_subject_convention("aeroxe.pppoe.session.ended.v1"@);
        }
        owned("aeroxe.pppoe.session.ended.v1")
    }

    // Ticket events
    /// `aeroxe.ticket.created.v1`
    pub fn ticket_created() -> (s: String)
        ensures
            s@ == "aeroxe.ticket.created.v1"@,
            follows_subject_convention(s@),
    {
        proof {
            reveal_strlit("aeroxe.ticket.created.v1");
            lemma_subject_convention("aeroxe.ticket.created.v1"@);
        }
        owned("aeroxe.ticket.created.v1")
    }
    /// `aeroxe.ticket.escalated.v1`
    pub fn ticket_escalated() -> (s: String)
        ensures
            s@ == "aeroxe.ticket.escalated.v1"@,
            follows_subject_convention(s@),
    {
        proof {
            reveal_strlit("aeroxe.ticket.escalated.v1");
            lemma_subject_convention("aeroxe.ticket.escalated.v1"@);
        }
        owned("aeroxe.ticket.escalated.v1")
    }
    /// `aeroxe.ticket.resolved.v1`
    pub fn ticket_resolved() -> (s: String)
        ensures
            s@ == "aeroxe.ticket.resolved.v1"@,
            follows_subject_convention(s@),
    {
        proof {
            reveal_strlit("aeroxe.ticket.resolved.v1");
            lemma_subject_convention("aeroxe.ticket.resolved.v1"@);
        }
        owned("aeroxe.ticket.resolved.v1")
    }

    // Bandwidth events
    /// `aeroxe.bandwidth.profile.updated.v1`
    pub fn bandwidth_profile_updated() -> (s: String)
        ensures
            s@ == "aeroxe.bandwidth.profile.updated.v1"@,
            follows_subject_convention(s@),
    {
        proof {
            reveal_strlit("aeroxe.bandwidth.profile.updated.v1");
            lemma_subject_convention("aeroxe.bandwidth.profile.updated.v1"@);
        }
        owned("aeroxe.bandwidth.profile.updated.v1")
    }
    /// `aeroxe.bandwidth.profile.applied.v1`
    pub fn bandwidth_profile_applied() -> (s: String)
        ensures
            s@ == "aeroxe.bandwidth.profile.applied.v1"@,
            follows_subject_convention(s@),
    {
        proof {
            reveal_strlit("aeroxe.bandwidth.profile.applied.v1");
            lemma_subject_convention("aeroxe.bandwidth.profile.applied.v1"@);
        }
        owned("aeroxe.bandwidth.profile.applied.v1")
    }

    // Plan events
    /// `aeroxe.plan.created.v1`
    pub fn plan_created() -> (s: String)
        ensures
            s@ == "aeroxe.plan.created.v1"@,
            follows_subject_convention(s@),
    {
        proof {
            reveal_strlit("aeroxe.plan.created.v1");
            lemma_subject_convention("aeroxe.plan.created.v1"@);
        }
        owned("aeroxe.plan.created.v1")
    }
    /// `aeroxe.plan.updated.v1`
    pub fn plan_updated() -> (s: String)
        ensures
            s@ == "aeroxe.plan.updated.v1"@,
            follows_subject_convention(s@),
    {
        proof {
            reveal_strlit("aeroxe.plan.updated.v1");
            lemma_subject_convention("aeroxe.plan.updated.v1"@);
        }
        owned("aeroxe.plan.updated.v1")
    }
    /// `aeroxe.plan.published.v1`
    pub fn plan_published() -> (s: String)
        ensures
            s@ == "aeroxe.plan.published.v1"@,
            follows_subject_convention(s@),
    {
        proof {
            reveal_strlit("aeroxe.plan.published.v1");
            lemma_subject_convention("aeroxe.plan.published.v1"@);
        }
        owned("aeroxe.plan.published.v1")
    }

    // Lead events
    /// `aeroxe.lead.created.v1`
    pub fn lead_created() -> (s: String)
        ensures
            s@ == "aeroxe.lead.created.v1"@,
            follows_subject_convention(s@),
    {
        proof {
            reveal_strlit("aeroxe.lead.created.v1");
            lemma_subject_convention("aeroxe.lead.created.v1"@);
        }
        owned("aeroxe.lead.created.v1")
    }
    /// `aeroxe.lead.converted.v1`
    pub fn lead_converted() -> (s: String)
        ensures
            s@ == "aeroxe.lead.converted.v1"@,
            follows_subject_convention(s@),
    {
        proof {
            reveal_strlit("aeroxe.lead.converted.v1");
            lemma_subject_convention("aeroxe.lead.converted.v1"@);
        }
        owned("aeroxe.lead.converted.v1")
    }

    // Referral events
    /// `aeroxe.referral.created.v1`
    pub fn referral_created() -> (s: String)
        ensures
            s@ == "aeroxe.referral.created.v1"@,
            follows_subject_convention(s@),
    {
        proof {
            reveal_strlit("aeroxe.referral.created.v1");
            lemma_subject_convention("aeroxe.referral.created.v1"@);
        }
        owned("aeroxe.referral.created.v1")
    }
    /// `aeroxe.referral.rewarded.v1`
    pub fn referral_rewarded() -> (s: String)
        ensures
            s@ == "aeroxe.referral.rewarded.v1"@,
            follows_subject_convention(s@),
    {
        proof {
            reveal_strlit("aeroxe.referral.rewarded.v1");
            lemma_subject_convention("aeroxe.referral.rewarded.v1"@);
        }
        owned("aeroxe.referral.rewarded.v1")
    }

    // Installation events
    /// `aeroxe.installation.scheduled.v1`
    pub fn installation_scheduled() -> (s: String)
        ensures
            s@ == "aeroxe.installation.scheduled.v1"@,
            follows_subject_convention(s@),
    {
        proof {
            reveal_strlit("aeroxe.installation.scheduled.v1");
            lemma_subject_convention("aeroxe.installation.scheduled.v1"@);
        }
        owned("aeroxe.installation.scheduled.v1")
    }
    /// `aeroxe.installation.completed.v1`
    pub fn installation_completed() -> (s: String)
        ensures
            s@ == "aeroxe.installation.completed.v1"@,
            follows_subject_convention(s@),
    {
        proof {
            reveal_strlit("aeroxe.installation.completed.v1");
            lemma_subject_convention("aeroxe.installation.completed.v1"@);
        }
        owned("aeroxe.installation.completed.v1")
    }

    // Audit events
    /// `aeroxe.audit.action.v1`
    pub fn audit_action() -> (s: String)
        ensures
            s@ == "aeroxe.audit.action.v1"@,
            follows_subject_convention(s@),
    {
        proof {
            reveal_strlit("aeroxe.audit.action.v1");
            lemma_subject_convention("aeroxe.audit.action.v1"@);
        }
        owned("aeroxe.audit.action.v1")
    }

    // SLA events
    /// `aeroxe.sla.breach.warning.v1`
    pub fn sla_breach_warning() -> (s: String)
        ensures
            s@ == "aeroxe.sla.breach.warning.v1"@,
            follows_subject_convention(s@),
    {
        proof {
            reveal_strlit("aeroxe.sla.breach.warning.v1");
            lemma_subject_convention("aeroxe.sla.breach.warning.v1"@);
        }
        owned("aeroxe.sla.breach.warning.v1")
    }
}

/// JetStream stream configuration for events.
pub struct JetStreamConfig {
    pub stream_name: String,
    pub subjects: Vec<String>,
    pub max_messages: i64,
    pub max_bytes: i64,
    pub max_age_secs: i64,
}

impl Default for JetStreamConfig {
    /// The `EVENTS` stream over every `aeroxe.` subject: at most one million
    /// messages, 1 GiB, kept 30 days.
    fn default() -> (c: Self)
        ensures
            c.stream_name@ == "EVENTS"@,
            c.subjects@.len() == 1,
            c.subjects@[0]@ == "aeroxe.>"@,
            c.max_messages == 1_000_000,
            c.max_bytes == 1_073_741_824,
            c.max_age_secs == 30 * 24 * 3600,
    {
        let mut subjects: Vec<String> = Vec::new();
        subjects.push(owned("aeroxe.>"));
        JetStreamConfig {
            stream_name: owned("EVENTS"),
            subjects,
            max_messages: 1_000_000,
            max_bytes: 1_073_741_824,
            max_age_secs: 30 * 24 * 3600,
        }
    }
}

/// Whether a NATS subject is matched by the filter `<prefix>.>`: it starts
/// with `<prefix>.` and something follows.
pub open spec fn matches_tail_wildcard(prefix: Seq<char>, subject: Seq<char>) -> bool {
    &&& subject.len() > prefix.len() + 1
    &&& subject.take(prefix.len() + 1int) == prefix.push('.')
}

/// The `EVENTS` stream keeps every domain event: its filter is `aeroxe.>`,
/// and every subject that follows the naming convention is matched by it.
pub proof fn law_stream_captures_domain_events(subject: Seq<char>)
    requires
        follows_subject_convention(subject),
    ensures
        "aeroxe.>"@ == "aeroxe"@.push('.').push('>'),
        matches_tail_wildcard("aeroxe"@, subject),
{
    reveal_strlit("aeroxe.>");
    reveal_strlit("aeroxe");
    assert("aeroxe.>"@ =~= "aeroxe"@.push('.').push('>'));
    assert("aeroxe"@.push('.') =~= seq!['a', 'e', 'r', 'o', 'x', 'e', '.']);
}

} // verus!
