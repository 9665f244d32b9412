//! What the NATS event subscribers do with each domain event: the side
//! effect an event triggers, the notifications it queues, and the status
//! changes applied to the entities it names. The subscribers fetch and store
//! the entities; the decisions are made here.
use vstd::prelude::*;
use vstd::string::StringExecFns;

use crate::text::{owned, str_eq};

verus! {

/// Side effect of a customer or subscription event.
#[derive(Debug, Clone, Copy, PartialEq, Eq, Structural)]
pub enum CustomerEffect {
    /// Create the customer's referral wallet (if it has none yet).
    CreateWallet(i64),
    /// Apply the bandwidth profile of the customer's active plan.
    ProvisionBandwidth(i64),
    /// Suspend the customer's applied bandwidth profiles.
    RevokeBandwidth(i64),
    /// Terminate the customer's subscriptions and PPPoE sessions.
    CleanupResources(i64),
    /// Move a registered customer to `kyc_pending`.
    KycSubmitted(i64),
    /// Move a `kyc_pending` customer with a verified KYC to `kyc_verified`.
    KycVerified(i64),
    /// Nothing to do.
    Ignore,
}

/// Effect of a customer event carrying `customer_id` (if its payload has one).
pub open spec fn customer_effect_of(event_type: Seq<char>, customer_id: Option<i64>) -> CustomerEffect {
    match customer_id {
        None => CustomerEffect::Ignore,
        Some(id) => if event_type == "customer.created"@ {
            CustomerEffect::CreateWallet(id)
        } else if event_type == "customer.activated"@ || event_type == "customer.reactivated"@ {
            CustomerEffect::ProvisionBandwidth(id)
        } else if event_type == "customer.suspended"@ {
            CustomerEffect::RevokeBandwidth(id)
        } else if event_type == "customer.terminated"@ {
            CustomerEffect::CleanupResources(id)
        } else if event_type == "customer.kyc.submitted"@ {
            CustomerEffect::KycSubmitted(id)
        } else if event_type == "customer.kyc.verified"@ {
            CustomerEffect::KycVerified(id)
        } else {
            CustomerEffect::Ignore
        },
    }
}

/// Effect of a subscription event carrying `customer_id` (if its payload has one).
pub open spec fn subscription_effect_of(event_type: Seq<char>, customer_id: Option<i64>) -> CustomerEffect {
    match customer_id {
        None => CustomerEffect::Ignore,
        Some(id) => if event_type == "subscription.created"@ || event_type == "subscription.reactivated"@
            || event_type == "subscription.upgraded"@ || event_type == "subscription.downgraded"@ {
            CustomerEffect::ProvisionBandwidth(id)
        } else if event_type == "subscription.suspended"@ {
            CustomerEffect::RevokeBandwidth(id)
        } else if event_type == "subscription.cancelled"@ {
            CustomerEffect::CleanupResources(id)
        } else {
            CustomerEffect::Ignore
        },
    }
}

/// Side effect of a customer event.
pub fn customer_event_effect(event_type: &str, customer_id: Option<i64>) -> (e: CustomerEffect)
    ensures
        e == customer_effect_of(event_type@, customer_id),
{
    match customer_id {
        None => CustomerEffect::Ignore,
        Some(id) => {
            if str_eq(event_type, "customer.created") {
                CustomerEffect::CreateWallet(id)
            } else if str_eq(event_type, "customer.activated") || str_eq(event_type, "customer.reactivated") {
                CustomerEffect::ProvisionBandwidth(id)
            } else if str_eq(event_type, "customer.suspended") {
                CustomerEffect::RevokeBandwidth(id)
            } else if str_eq(event_type, "customer.terminated") {
                CustomerEffect::CleanupResources(id)
            } else if str_eq(event_type, "customer.kyc.submitted") {
                CustomerEffect::KycSubmitted(id)
            } else if str_eq(event_type, "customer.kyc.verified") {
                CustomerEffect::KycVerified(id)
            } else {
                CustomerEffect::Ignore
            }
        },
    }
}

/// Side effect of a subscription event.
pub fn subscription_event_effect(event_type: &str, customer_id: Option<i64>) -> (e: CustomerEffect)
    ensures
        e == subscription_effect_of(event_type@, customer_id),
{
    match customer_id {
        None => CustomerEffect::Ignore,
        Some(id) => {
            if str_eq(event_type, "subscription.created") || str_eq(event_type, "subscription.reactivated")
                || str_eq(event_type, "subscription.upgraded") || str_eq(event_type, "subscription.downgraded") {
                CustomerEffect::ProvisionBandwidth(id)
            } else if str_eq(event_type, "subscription.suspended") {
                CustomerEffect::RevokeBandwidth(id)
            } else if str_eq(event_type, "subscription.cancelled") {
                CustomerEffect::CleanupResources(id)
            } else {
                CustomerEffect::Ignore
            }
        },
    }
}

/// A notification to queue for a customer.
#[derive(Debug)]
pub struct NotificationDraft {
    pub recipient_id: i64,
    pub channel: String,
    pub subject: String,
    pub body: String,
}

/// The queued notification record stored for a draft: addressed to a
/// customer, queued, no retries yet, at most 3.
#[derive(Debug)]
pub struct NotificationRecord {
    pub channel: String,
    pub recipient_type: String,
    pub recipient_id: i64,
    pub recipient_address: String,
    pub subject: Option<String>,
    pub body: String,
    pub status: String,
    pub retry_count: i32,
    pub max_retries: i32,
}

/// Whether `r` is the record stored for `draft`: addressed to the customer,
/// queued, no retries yet, at most 3.
pub open spec fn is_record_of(draft: NotificationDraft, r: NotificationRecord) -> bool {
    &&& r.channel == draft.channel
    &&& r.recipient_type@ == "customer"@
    &&& r.recipient_id == draft.recipient_id
    &&& r.recipient_address@ == Seq::<char>::empty()
    &&& r.subject == Some(draft.subject)
    &&& r.body == draft.body
    &&& r.status@ == "queued"@
    &&& r.retry_count == 0
    &&& r.max_retries == 3
}

/// The record stored for a notification draft.
pub fn notification_record(draft: NotificationDraft) -> (r: NotificationRecord)
    ensures
        is_record_of(draft, r),
{
    NotificationRecord {
        channel: draft.channel,
        recipient_type: owned("customer"),
        recipient_id: draft.recipient_id,
        recipient_address: String::new(),
        subject: Some(draft.subject),
        body: draft.body,
        status: owned("queued"),
        retry_count: 0,
        max_retries: 3,
    }
}

/// Whether a delivery of an event queues its notification: only when the
/// same notification (recipient, channel, subject and body) is not already
/// queued.
pub open spec fn queues_notification(already_queued: bool) -> bool {
    !already_queued
}

/// The notification record to queue for an event's draft, or `None` when the
/// same notification is already queued (the event is being replayed).
pub fn notification_to_queue(draft: NotificationDraft, already_queued: bool) -> (r: Option<NotificationRecord>)
    ensures
        queues_notification(already_queued) ==> (r matches Some(rec) && is_record_of(draft, rec)),
        !queues_notification(already_queued) ==> r is None,
{
    if already_queued {
        None
    } else {
        Some(notification_record(draft))
    }
}

/// Notification handlers are safe to replay: the first delivery queues the
/// notification, and a replay, which finds it queued, queues nothing more.
pub proof fn law_notification_replay_queues_nothing()
    ensures
        queues_notification(false),
        !queues_notification(true),
{
}

/// Subject of the reminder for a generated invoice.
pub open spec fn invoice_reminder_subject(invoice_number: Seq<char>) -> Seq<char> {
    "Payment Reminder - Invoice "@ + invoice_number
}

/// Body of the reminder for a generated invoice.
pub open spec fn invoice_reminder_body(invoice_number: Seq<char>, total: Seq<char>) -> Seq<char> {
    "Dear customer, your invoice "@ + invoice_number + " for \u{20b9}"@ + total
        + " is due. Please make the payment to avoid service interruption."@
}

/// Subject of the notice for an overdue invoice.
pub open spec fn overdue_subject(invoice_number: Seq<char>) -> Seq<char> {
    "URGENT: Invoice "@ + invoice_number + " is overdue. Pay immediately to avoid service suspension."@
}

/// Body of the notice for an overdue invoice.
pub open spec fn overdue_body(invoice_number: Seq<char>) -> Seq<char> {
    "Payment overdue for invoice "@ + invoice_number + ". Please pay now."@
}

/// Fields of an invoice event's payload that the subscriber reads.
pub struct InvoiceEventFields {
    pub customer_id: Option<i64>,
    pub invoice_number: Option<String>,
    /// JSON text of `total_amount`, when present.
    pub total_amount: Option<String>,
}

/// The notification an invoice event queues, if any.
pub fn invoice_event_notification(event_type: &str, fields: &InvoiceEventFields) -> (n: Option<NotificationDraft>)
    ensures
        (event_type@ == "invoice.generated"@ && fields.customer_id is Some
            && fields.invoice_number is Some && fields.total_amount is Some) ==> (n matches Some(d)
            && d.recipient_id == fields.customer_id->0
            && d.channel@ == "email"@
            && d.subject@ == invoice_reminder_subject(fields.invoice_number->0@)
            && d.body@ == invoice_reminder_body(fields.invoice_number->0@, fields.total_amount->0@)),
        (event_type@ == "invoice.overdue"@ && fields.customer_id is Some && fields.invoice_number is Some)
            ==> (n matches Some(d)
            && d.recipient_id == fields.customer_id->0
            && d.channel@ == "sms"@
            && d.subject@ == overdue_subject(fields.invoice_number->0@)
            && d.body@ == overdue_body(fields.invoice_number->0@)),
        !((event_type@ == "invoice.generated"@ && fields.customer_id is Some
            && fields.invoice_number is Some && fields.total_amount is Some)
          || (event_type@ == "invoice.overdue"@ && fields.customer_id is Some && fields.invoice_number is Some))
            ==> n is None,
{
    proof {
        reveal_strlit("invoice.generated");
        reveal_strlit("invoice.overdue");
        assert("invoice.generated"@[8] != "invoice.overdue"@[8]);
    }
    if str_eq(event_type, "invoice.generated") {
        match (&fields.customer_id, &fields.invoice_number, &fields.total_amount) {
            (Some(id), Some(number), Some(total)) => {
                let mut subject = owned("Payment Reminder - Invoice ");
                subject.append(number.as_str());
                let mut body = owned("Dear customer, your invoice ");
                body.append(number.as_str());
                body.append(" for \u{20b9}");
                body.append(total.as_str());
                body.append(" is due. Please make the payment to avoid service interruption.");
                Some(NotificationDraft { recipient_id: *id, channel: owned("email"), subject, body })
            },
            _ => None,
        }
    } else if str_eq(event_type, "invoice.overdue") {
        match (&fields.customer_id, &fields.invoice_number) {
            (Some(id), Some(number)) => {
                let mut subject = owned("URGENT: Invoice ");
                subject.append(number.as_str());
                subject.append(" is overdue. Pay immediately to avoid service suspension.");
                let mut body = owned("Payment overdue for invoice ");
                body.append(number.as_str());
                body.append(". Please pay now.");
                Some(NotificationDraft { recipient_id: *id, channel: owned("sms"), subject, body })
            },
            _ => None,
        }
    } else {
        None
    }
}

/// Fields of a payment event's payload that the subscriber reads.
pub struct PaymentEventFields {
    pub invoice_id: Option<i64>,
    pub customer_id: Option<i64>,
    /// JSON text of `amount`, when present.
    pub amount: Option<String>,
}

/// What a payment event asks for: an invoice to mark paid and a notification.
pub struct PaymentEventEffects {
    pub mark_invoice_paid: Option<i64>,
    pub notification: Option<NotificationDraft>,
}

/// The amount as shown to the customer: its JSON text, or empty if missing.
pub open spec fn amount_text(amount: Option<String>) -> Seq<char> {
    match amount {
        Some(a) => a@,
        None => Seq::empty(),
    }
}

/// What a payment event does.
pub fn payment_event_effects(event_type: &str, fields: &PaymentEventFields) -> (e: PaymentEventEffects)
    ensures
        event_type@ == "payment.completed"@ ==> {
            &&& e.mark_invoice_paid == fields.invoice_id
            &&& fields.customer_id is None ==> e.notification is None
            &&& fields.customer_id matches Some(c) ==> (e.notification matches Some(d)
                && d.recipient_id == c && d.channel@ == "email"@
                && d.subject@ == "Payment Confirmation"@
                && d.body@ == "Your payment of \u{20b9}"@ + amount_text(fields.amount)
                    + " has been received successfully."@)
        },
        event_type@ == "payment.failed"@ ==> {
            &&& e.mark_invoice_paid is None
            &&& fields.customer_id is None ==> e.notification is None
            &&& fields.customer_id matches Some(c) ==> (e.notification matches Some(d)
                && d.recipient_id == c && d.channel@ == "email"@
                && d.subject@ == "Payment Failed"@
                && d.body@ == "Your payment could not be processed. Please try again or contact support."@)
        },
        event_type@ == "refund.processed"@ ==> {
            &&& e.mark_invoice_paid is None
            &&& fields.customer_id is None ==> e.notification is None
            &&& fields.customer_id matches Some(c) ==> (e.notification matches Some(d)
                && d.recipient_id == c && d.channel@ == "email"@
                && d.subject@ == "Refund Processed"@
                && d.body@ == "Your refund of \u{20b9}"@ + amount_text(fields.amount) + " has been processed."@)
        },
        !(event_type@ == "payment.completed"@ || event_type@ == "payment.failed"@
            || event_type@ == "refund.processed"@) ==> (e.mark_invoice_paid is None && e.notification is None),
{
    proof {
        reveal_strlit("payment.completed");
        reveal_strlit("payment.failed");
        reveal_strlit("refund.processed");
        assert("payment.completed"@[8] != "payment.failed"@[8]);
        assert("payment.completed"@[0] != "refund.processed"@[0]);
        assert("payment.failed"@[0] != "refund.processed"@[0]);
    }
    if str_eq(event_type, "payment.completed") {
        let notification = match fields.customer_id {
            Some(c) => {
                let mut body = owned("Your payment of \u{20b9}");
                match &fields.amount {
                    Some(a) => body.append(a.as_str()),
                    None => {},
                }
                body.append(" has been received successfully.");
                Some(NotificationDraft {
                    recipient_id: c,
                    channel: owned("email"),
                    subject: owned("Payment Confirmation"),
                    body,
                })
            },
            None => None,
        };
        PaymentEventEffects { mark_invoice_paid: fields.invoice_id, notification }
    } else if str_eq(event_type, "payment.failed") {
        let notification = match fields.customer_id {
            Some(c) => Some(NotificationDraft {
                recipient_id: c,
                channel: owned("email"),
                subject: owned("Payment Failed"),
                body: owned("Your payment could not be processed. Please try again or contact support."),
            }),
            None => None,
        };
        PaymentEventEffects { mark_invoice_paid: None, notification }
    } else if str_eq(event_type, "refund.processed") {
        let notification = match fields.customer_id {
            Some(c) => {
                let mut body = owned("Your refund of \u{20b9}");
                match &fields.amount {
                    Some(a) => body.append(a.as_str()),
                    None => {},
                }
                body.append(" has been processed.");
                Some(NotificationDraft {
                    recipient_id: c,
                    channel: owned("email"),
                    subject: owned("Refund Processed"),
                    body,
                })
            },
            None => None,
        };
        PaymentEventEffects { mark_invoice_paid: None, notification }
    } else {
        PaymentEventEffects { mark_invoice_paid: None, notification: None }
    }
}

/// New status of a customer whose KYC was submitted: `kyc_pending` if it was
/// `registered`; otherwise no change.
pub open spec fn kyc_submitted_next(current: Seq<char>) -> Option<Seq<char>> {
    if current == "registered"@ {
        Some("kyc_pending"@)
    } else {
        None
    }
}

/// New status of a customer after a KYC verification: `kyc_verified` if at
/// least one KYC is verified and the customer is `kyc_pending`.
pub open spec fn kyc_verified_next(verified_kyc_count: nat, current: Seq<char>) -> Option<Seq<char>> {
    if verified_kyc_count > 0 && current == "kyc_pending"@ {
        Some("kyc_verified"@)
    } else {
        None
    }
}

/// New status of an invoice whose payment completed: `paid`, unless it already is.
pub open spec fn invoice_paid_next(current: Seq<char>) -> Option<Seq<char>> {
    if current == "paid"@ {
        None
    } else {
        Some("paid"@)
    }
}

/// The view of an optional status.
pub open spec fn status_view(s: Option<String>) -> Option<Seq<char>> {
    match s {
        Some(x) => Some(x@),
        None => None,
    }
}

/// New status of a customer whose KYC was submitted.
pub fn kyc_submitted_status(current: &str) -> (next: Option<String>)
    ensures
        status_view(next) == kyc_submitted_next(current@),
        next is Some <==> current@ == "registered"@,
        next matches Some(t) ==> t@ == "kyc_pending"@,
{
    if str_eq(current, "registered") {
        Some(owned("kyc_pending"))
    } else {
        None
    }
}

/// New status of a customer after a KYC verification.
pub fn kyc_verified_status(verified_kyc_count: u64, current: &str) -> (next: Option<String>)
    ensures
        status_view(next) == kyc_verified_next(verified_kyc_count as nat, current@),
        next is Some <==> (verified_kyc_count > 0 && current@ == "kyc_pending"@),
        next matches Some(t) ==> t@ == "kyc_verified"@,
{
    if verified_kyc_count > 0 && str_eq(current, "kyc_pending") {
        Some(owned("kyc_verified"))
    } else {
        None
    }
}

/// New status of an invoice whose payment completed.
pub fn invoice_paid_status(current: &str) -> (next: Option<String>)
    ensures
        status_view(next) == invoice_paid_next(current@),
        next is None <==> current@ == "paid"@,
        next matches Some(t) ==> t@ == "paid"@,
{
    if str_eq(current, "paid") {
        None
    } else {
        Some(owned("paid"))
    }
}

/// Whether a subscription in this status is terminated with its customer:
/// the active and the suspended ones are.
pub open spec fn terminable(status: Seq<char>) -> bool {
    status == "active"@ || status == "suspended"@
}

/// Whether a bandwidth application in this status is revoked by a
/// suspension: the applied ones are.
pub open spec fn revocable(status: Seq<char>) -> bool {
    status == "applied"@
}

/// Subscriptions of a terminated customer that are terminated: the active
/// and the suspended ones.
pub fn subscription_terminable(status: &str) -> (b: bool)
    ensures
        b == terminable(status@),
{
    str_eq(status, "active") || str_eq(status, "suspended")
}

/// Bandwidth applications that a suspension revokes: the applied ones.
pub fn application_revocable(status: &str) -> (b: bool)
    ensures
        b == revocable(status@),
{
    str_eq(status, "applied")
}

/// Status given to revoked bandwidth applications.
pub fn revoked_application_status() -> (s: String)
    ensures
        s@ == "suspended"@,
{
    owned("suspended")
}

/// Status given to the subscriptions and PPPoE sessions of a terminated customer.
pub fn terminated_status() -> (s: String)
    ensures
        s@ == "terminated"@,
{
    owned("terminated")
}

/// A new referral wallet: zero balance, earnings and spending, in rupees.
pub struct WalletDraft {
    pub customer_id: i64,
    pub currency: String,
}

/// The wallet to create for a new customer, or `None` if one already exists.
pub fn wallet_to_create(customer_id: i64, wallet_exists: bool) -> (w: Option<WalletDraft>)
    ensures
        wallet_exists ==> w is None,
        !wallet_exists ==> (w matches Some(d) && d.customer_id == customer_id && d.currency@ == "INR"@),
{
    if wallet_exists {
        None
    } else {
        Some(WalletDraft { customer_id, currency: owned("INR") })
    }
}

/// A bandwidth profile application to record when provisioning.
pub struct BandwidthApplicationDraft {
    pub profile_id: i64,
    pub subscription_id: i64,
    pub status: String,
}

/// What `bandwidth_application` decides, as (subscription, profile) to apply.
pub open spec fn provision_decision(
    active_subscription_id: Option<i64>,
    active_profile_id: Option<i64>,
    already_applied: bool,
) -> Option<(i64, i64)> {
    match (active_subscription_id, active_profile_id) {
        (Some(s), Some(p)) => if already_applied { None } else { Some((s, p)) },
        _ => None,
    }
}

/// Provisioning records an `applied` application of the plan's active profile
/// to the customer's active subscription, when both exist and that profile is
/// not already applied to that subscription; so replaying an activation
/// records nothing more.
pub fn bandwidth_application(
    active_subscription_id: Option<i64>,
    active_profile_id: Option<i64>,
    already_applied: bool,
) -> (a: Option<BandwidthApplicationDraft>)
    ensures
        match provision_decision(active_subscription_id, active_profile_id, already_applied) {
            Some((s, p)) => a matches Some(d) && d.subscription_id == s && d.profile_id == p
                && d.status@ == "applied"@,
            None => a is None,
        },
{
    if already_applied {
        return None;
    }
    match (active_subscription_id, active_profile_id) {
        (Some(s), Some(p)) => Some(BandwidthApplicationDraft { profile_id: p, subscription_id: s, status: owned("applied") }),
        _ => None,
    }
}

/// Provisioning is safe to replay: once the profile is applied to the
/// subscription, provisioning again asks for nothing.
pub proof fn law_provisioning_idempotent(subscription_id: i64, profile_id: i64)
    ensures
        provision_decision(Some(subscription_id), Some(profile_id), true) is None,
        provision_decision(Some(subscription_id), Some(profile_id), false) is Some,
{
}

/// Handlers are safe to replay: applying a status transition to the status it
/// produced changes nothing more.
pub proof fn law_status_transitions_idempotent(current: Seq<char>, count: nat)
    ensures
        kyc_submitted_next(current) matches Some(t) ==> kyc_submitted_next(t) is None,
        kyc_verified_next(count, current) matches Some(t) ==> kyc_verified_next(count, t) is None,
        invoice_paid_next(current) matches Some(t) ==> invoice_paid_next(t) is None,
{
    reveal_strlit("kyc_pending");
    reveal_strlit("registered");
    reveal_strlit("kyc_verified");
    assert("kyc_pending"@[0] != "registered"@[0]);
    assert("kyc_verified"@[4] != "kyc_pending"@[4]);
}

/// Revocations and clean-ups are safe to replay: the status they write is
/// not one they act on, so a second delivery of the event changes nothing.
pub proof fn law_revoke_and_cleanup_idempotent()
    ensures
        !revocable("suspended"@),
        !terminable("terminated"@),
{
    reveal_strlit("suspended");
    reveal_strlit("applied");
    reveal_strlit("terminated");
    reveal_strlit("active");
    assert("suspended"@[0] != "applied"@[0]);
    assert("terminated"@[0] != "active"@[0]);
    assert("terminated"@[0] != "suspended"@[0]);
}

/// A completed payment marks every invoice that is not already paid as
/// `paid`, whatever its status (draft, sent, overdue, ...); only an invoice
/// that is already paid is left as it is.
pub proof fn law_payment_marks_invoice_paid(current: Seq<char>)
    ensures
        current != "paid"@ ==> invoice_paid_next(current) == Some("paid"@),
        current == "paid"@ ==> invoice_paid_next(current) is None,
{
}

/// A KYC submission moves only a `registered` customer, and to
/// `kyc_pending`; a customer in any other status (pending, verified,
/// active, ...) is left as it is.
pub proof fn law_kyc_submission_moves_only_registered(current: Seq<char>)
    ensures
        current == "registered"@ ==> kyc_submitted_next(current) == Some("kyc_pending"@),
        current != "registered"@ ==> kyc_submitted_next(current) is None,
{
}

/// A KYC verification moves only a `kyc_pending` customer with at least one
/// verified KYC, and to `kyc_verified`; without a verified KYC, or from any
/// other status, nothing changes.
pub proof fn law_kyc_verification_needs_pending_and_verified(current: Seq<char>, count: nat)
    ensures
        (count > 0 && current == "kyc_pending"@) ==> kyc_verified_next(count, current) == Some("kyc_verified"@),
        count == 0 ==> kyc_verified_next(count, current) is None,
        current != "kyc_pending"@ ==> kyc_verified_next(count, current) is None,
{
}

/// Suspension revokes exactly the `applied` bandwidth applications, and
/// termination ends exactly the `active` and `suspended` subscriptions.
pub proof fn law_revocation_and_termination_targets(status: Seq<char>)
    ensures
        revocable(status) <==> status == "applied"@,
        terminable(status) <==> (status == "active"@ || status == "suspended"@),
{
}

/// What each customer event asks for: `created` creates the wallet,
/// `activated` and `reactivated` provision bandwidth, `suspended` revokes it,
/// `terminated` cleans up, the KYC events move the KYC status, every other
/// type does nothing, and an event without a customer id does nothing.
pub proof fn law_customer_event_effects(event_type: Seq<char>, id: i64)
    ensures
        customer_effect_of("customer.created"@, Some(id)) == CustomerEffect::CreateWallet(id),
        customer_effect_of("customer.activated"@, Some(id)) == CustomerEffect::ProvisionBandwidth(id),
        customer_effect_of("customer.reactivated"@, Some(id)) == CustomerEffect::ProvisionBandwidth(id),
        customer_effect_of("customer.suspended"@, Some(id)) == CustomerEffect::RevokeBandwidth(id),
        customer_effect_of("customer.terminated"@, Some(id)) == CustomerEffect::CleanupResources(id),
        customer_effect_of("customer.kyc.submitted"@, Some(id)) == CustomerEffect::KycSubmitted(id),
        customer_effect_of("customer.kyc.verified"@, Some(id)) == CustomerEffect::KycVerified(id),
        customer_effect_of(event_type, None) == CustomerEffect::Ignore,
        !(event_type == "customer.created"@ || event_type == "customer.activated"@
            || event_type == "customer.reactivated"@ || event_type == "customer.suspended"@
            || event_type == "customer.terminated"@ || event_type == "customer.kyc.submitted"@
            || event_type == "customer.kyc.verified"@) ==> customer_effect_of(event_type, Some(id))
            == CustomerEffect::Ignore,
{
    reveal_strlit("customer.created");
    reveal_strlit("customer.activated");
    reveal_strlit("customer.reactivated");
    reveal_strlit("customer.suspended");
    reveal_strlit("customer.terminated");
    reveal_strlit("customer.kyc.submitted");
    reveal_strlit("customer.kyc.verified");
    assert("customer.activated"@[9] != "customer.created"@[9]);
    assert("customer.reactivated"@[9] != "customer.created"@[9]);
    assert("customer.suspended"@.len() != "customer.created"@.len() || "customer.suspended"@[9] != "customer.created"@[9]);
    assert("customer.terminated"@[9] != "customer.created"@[9]);
    assert("customer.kyc.submitted"@[9] != "customer.created"@[9]);
    assert("customer.kyc.verified"@[9] != "customer.created"@[9]);
    assert("customer.reactivated"@[9] != "customer.activated"@[9]);
    assert("customer.suspended"@[9] != "customer.activated"@[9]);
    assert("customer.suspended"@[9] != "customer.reactivated"@[9]);
    assert("customer.terminated"@[9] != "customer.activated"@[9]);
    assert("customer.terminated"@[9] != "customer.reactivated"@[9]);
    assert("customer.terminated"@[9] != "customer.suspended"@[9]);
    assert("customer.kyc.submitted"@[9] != "customer.activated"@[9]);
    assert("customer.kyc.submitted"@[9] != "customer.reactivated"@[9]);
    assert("customer.kyc.submitted"@[9] != "customer.suspended"@[9]);
    assert("customer.kyc.submitted"@[9] != "customer.terminated"@[9]);
    assert("customer.kyc.verified"@[9] != "customer.activated"@[9]);
    assert("customer.kyc.verified"@[9] != "customer.reactivated"@[9]);
    assert("customer.kyc.verified"@[9] != "customer.suspended"@[9]);
    assert("customer.kyc.verified"@[9] != "customer.terminated"@[9]);
    assert("customer.kyc.verified"@[13] != "customer.kyc.submitted"@[13]);
}

/// What each subscription event asks for: `created`, `reactivated`,
/// `upgraded` and `downgraded` provision bandwidth, `suspended` revokes it,
/// `cancelled` cleans up; `renewed` and every other type do nothing, and an
/// event without a customer id does nothing.
pub proof fn law_subscription_event_effects(event_type: Seq<char>, id: i64)
    ensures
        subscription_effect_of("subscription.created"@, Some(id)) == CustomerEffect::ProvisionBandwidth(id),
        subscription_effect_of("subscription.reactivated"@, Some(id)) == CustomerEffect::ProvisionBandwidth(id),
        subscription_effect_of("subscription.upgraded"@, Some(id)) == CustomerEffect::ProvisionBandwidth(id),
        subscription_effect_of("subscription.downgraded"@, Some(id)) == CustomerEffect::ProvisionBandwidth(id),
        subscription_effect_of("subscription.suspended"@, Some(id)) == CustomerEffect::RevokeBandwidth(id),
        subscription_effect_of("subscription.cancelled"@, Some(id)) == CustomerEffect::CleanupResources(id),
        subscription_effect_of(event_type, None) == CustomerEffect::Ignore,
        !(event_type == "subscription.created"@ || event_type == "subscription.reactivated"@
            || event_type == "subscription.upgraded"@ || event_type == "subscription.downgraded"@
            || event_type == "subscription.suspended"@ || event_type == "subscription.cancelled"@)
            ==> subscription_effect_of(event_type, Some(id)) == CustomerEffect::Ignore,
{
    reveal_strlit("subscription.created");
    reveal_strlit("subscription.reactivated");
    reveal_strlit("subscription.upgraded");
    reveal_strlit("subscription.downgraded");
    reveal_strlit("subscription.suspended");
    reveal_strlit("subscription.cancelled");
    assert("subscription.suspended"@[13] != "subscription.created"@[13]);
    assert("subscription.suspended"@[13] != "subscription.reactivated"@[13]);
    assert("subscription.suspended"@[13] != "subscription.upgraded"@[13]);
    assert("subscription.suspended"@[13] != "subscription.downgraded"@[13]);
    assert("subscription.cancelled"@[14] != "subscription.created"@[14]);
    assert("subscription.cancelled"@[13] != "subscription.reactivated"@[13]);
    assert("subscription.cancelled"@[13] != "subscription.upgraded"@[13]);
    assert("subscription.cancelled"@[13] != "subscription.downgraded"@[13]);
    assert("subscription.cancelled"@[13] != "subscription.suspended"@[13]);
}

/// Provisioning asks for exactly the customer's active subscription and the
/// active profile of its plan, unless that profile is already applied to it;
/// with no active subscription or no active profile it asks for nothing.
pub proof fn law_provision_decision(
    subscription_id: i64,
    profile_id: i64,
    active_subscription_id: Option<i64>,
    active_profile_id: Option<i64>,
    already_applied: bool,
)
    ensures
        provision_decision(Some(subscription_id), Some(profile_id), false) == Some((subscription_id, profile_id)),
        provision_decision(Some(subscription_id), Some(profile_id), true) is None,
        (active_subscription_id is None || active_profile_id is None) ==> provision_decision(
            active_subscription_id, active_profile_id, already_applied) is None,
{
}

/// A queued notification goes to the customer its draft names, on the
/// draft's channel with the draft's subject and body, with no address yet,
/// in status `queued`, with no retry made and at most 3 allowed.
pub proof fn law_queued_notification_record(draft: NotificationDraft, r: NotificationRecord)
    requires
        is_record_of(draft, r),
    ensures
        r.recipient_type@ == "customer"@,
        r.recipient_id == draft.recipient_id,
        r.recipient_address@.len() == 0,
        r.channel == draft.channel,
        r.subject == Some(draft.subject),
        r.body == draft.body,
        r.status@ == "queued"@,
        r.retry_count == 0,
        r.max_retries == 3,
{
}

/// The texts a customer receives about an invoice: the reminder for a
/// generated invoice names its number and total in rupees, the overdue
/// notice names its number.
pub proof fn law_invoice_notice_texts(number: Seq<char>, total: Seq<char>)
    ensures
        invoice_reminder_subject(number) == "Payment Reminder - Invoice "@ + number,
        invoice_reminder_body(number, total) == "Dear customer, your invoice "@ + number + " for \u{20b9}"@
            + total + " is due. Please make the payment to avoid service interruption."@,
        overdue_subject(number) == "URGENT: Invoice "@ + number
            + " is overdue. Pay immediately to avoid service suspension."@,
        overdue_body(number) == "Payment overdue for invoice "@ + number + ". Please pay now."@,
{
}

} // verus!
