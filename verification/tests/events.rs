use aeroxe_backend::events::{
    application_revocable, bandwidth_application, customer_event_effect, invoice_event_notification,
    invoice_paid_status, kyc_submitted_status, kyc_verified_status, notification_record,
    payment_event_effects, subscription_event_effect, subscription_terminable, wallet_to_create,
    CustomerEffect, InvoiceEventFields, PaymentEventFields,
};

#[test]
fn customer_event_effects() {
    assert_eq!(customer_event_effect("customer.created", Some(1)), CustomerEffect::CreateWallet(1));
    assert_eq!(customer_event_effect("customer.activated", Some(2)), CustomerEffect::ProvisionBandwidth(2));
    assert_eq!(customer_event_effect("customer.reactivated", Some(2)), CustomerEffect::ProvisionBandwidth(2));
    assert_eq!(customer_event_effect("customer.suspended", Some(3)), CustomerEffect::RevokeBandwidth(3));
    assert_eq!(customer_event_effect("customer.terminated", Some(4)), CustomerEffect::CleanupResources(4));
    assert_eq!(customer_event_effect("customer.kyc.submitted", Some(5)), CustomerEffect::KycSubmitted(5));
    assert_eq!(customer_event_effect("customer.kyc.verified", Some(6)), CustomerEffect::KycVerified(6));
    assert_eq!(customer_event_effect("customer.created", None), CustomerEffect::Ignore);
    assert_eq!(customer_event_effect("customer.renamed", Some(7)), CustomerEffect::Ignore);
}

#[test]
fn subscription_event_effects() {
    for t in ["subscription.created", "subscription.reactivated", "subscription.upgraded", "subscription.downgraded"] {
        assert_eq!(subscription_event_effect(t, Some(8)), CustomerEffect::ProvisionBandwidth(8));
    }
    assert_eq!(subscription_event_effect("subscription.suspended", Some(8)), CustomerEffect::RevokeBandwidth(8));
    assert_eq!(subscription_event_effect("subscription.cancelled", Some(8)), CustomerEffect::CleanupResources(8));
    assert_eq!(subscription_event_effect("subscription.renewed", Some(8)), CustomerEffect::Ignore);
}

#[test]
fn invoice_notifications() {
    let fields = InvoiceEventFields {
        customer_id: Some(11),
        invoice_number: Some("INV-7".to_string()),
        total_amount: Some("499".to_string()),
    };
    let n = invoice_event_notification("invoice.generated", &fields).unwrap();
    assert_eq!(n.recipient_id, 11);
    assert_eq!(n.channel, "email");
    assert_eq!(n.subject, "Payment Reminder - Invoice INV-7");
    assert_eq!(
        n.body,
        "Dear customer, your invoice INV-7 for \u{20b9}499 is due. Please make the payment to avoid service interruption."
    );
    let o = invoice_event_notification("invoice.overdue", &fields).unwrap();
    assert_eq!(o.channel, "sms");
    assert_eq!(o.subject, "URGENT: Invoice INV-7 is overdue. Pay immediately to avoid service suspension.");
    assert_eq!(o.body, "Payment overdue for invoice INV-7. Please pay now.");
    assert!(invoice_event_notification("invoice.sent", &fields).is_none());
    let partial = InvoiceEventFields { customer_id: Some(11), invoice_number: Some("INV-7".to_string()), total_amount: None };
    assert!(invoice_event_notification("invoice.generated", &partial).is_none());
    assert!(invoice_event_notification("invoice.overdue", &partial).is_some());
}

#[test]
fn payment_effects() {
    let fields = PaymentEventFields { invoice_id: Some(70), customer_id: Some(5), amount: Some("1200".to_string()) };
    let e = payment_event_effects("payment.completed", &fields);
    assert_eq!(e.mark_invoice_paid, Some(70));
    let n = e.notification.unwrap();
    assert_eq!(n.subject, "Payment Confirmation");
    assert_eq!(n.body, "Your payment of \u{20b9}1200 has been received successfully.");
    let failed = payment_event_effects("payment.failed", &fields);
    assert_eq!(failed.mark_invoice_paid, None);
    assert_eq!(failed.notification.unwrap().body, "Your payment could not be processed. Please try again or contact support.");
    let no_amount = PaymentEventFields { invoice_id: None, customer_id: Some(5), amount: None };
    let refund = payment_event_effects("refund.processed", &no_amount);
    assert_eq!(refund.notification.unwrap().body, "Your refund of \u{20b9} has been processed.");
    let approved = payment_event_effects("refund.approved", &fields);
    assert!(approved.mark_invoice_paid.is_none() && approved.notification.is_none());
}

#[test]
fn notification_records_are_queued() {
    let fields = PaymentEventFields { invoice_id: None, customer_id: Some(5), amount: None };
    let draft = payment_event_effects("payment.failed", &fields).notification.unwrap();
    let r = notification_record(draft);
    assert_eq!(r.recipient_type, "customer");
    assert_eq!(r.recipient_id, 5);
    assert_eq!(r.recipient_address, "");
    assert_eq!(r.subject.as_deref(), Some("Payment Failed"));
    assert_eq!(r.status, "queued");
    assert_eq!((r.retry_count, r.max_retries), (0, 3));
}

#[test]
fn status_transitions() {
    assert_eq!(kyc_submitted_status("registered").as_deref(), Some("kyc_pending"));
    assert_eq!(kyc_submitted_status("kyc_pending"), None);
    assert_eq!(kyc_verified_status(1, "kyc_pending").as_deref(), Some("kyc_verified"));
    assert_eq!(kyc_verified_status(0, "kyc_pending"), None);
    assert_eq!(kyc_verified_status(2, "active"), None);
    assert_eq!(invoice_paid_status("pending").as_deref(), Some("paid"));
    assert_eq!(invoice_paid_status("paid"), None);
    assert!(subscription_terminable("active") && subscription_terminable("suspended"));
    assert!(!subscription_terminable("terminated"));
    assert!(application_revocable("applied") && !application_revocable("suspended"));
}

#[test]
fn provisioning_records() {
    assert!(wallet_to_create(3, true).is_none());
    let w = wallet_to_create(3, false).unwrap();
    assert_eq!((w.customer_id, w.currency.as_str()), (3, "INR"));
    let a = bandwidth_application(Some(10), Some(20), false).unwrap();
    assert_eq!((a.subscription_id, a.profile_id, a.status.as_str()), (10, 20, "applied"));
    assert!(bandwidth_application(Some(10), None, false).is_none());
    assert!(bandwidth_application(None, Some(20), false).is_none());
    assert!(bandwidth_application(Some(10), Some(20), true).is_none());
}

#[test]
fn replayed_notification_is_not_queued_again() {
    let draft = || aeroxe_backend::events::NotificationDraft {
        recipient_id: 7,
        channel: "email".to_string(),
        subject: "Payment Failed".to_string(),
        body: "Your payment could not be processed. Please try again or contact support.".to_string(),
    };
    let first = aeroxe_backend::events::notification_to_queue(draft(), false).unwrap();
    assert_eq!((first.recipient_id, first.status.as_str(), first.subject.as_deref()), (7, "queued", Some("Payment Failed")));
    assert!(aeroxe_backend::events::notification_to_queue(draft(), true).is_none());
}
