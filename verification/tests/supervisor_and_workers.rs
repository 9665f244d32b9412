use aeroxe_backend::supervisor::{next_reconnect_delay, NatsSupervisor, SupervisorAction, SupervisorEvent};
use aeroxe_backend::workers::{
    cycle_counter, integration_configured, partition_due, subscriber_subjects, CycleCounter, CycleOutcome,
};

#[test]
fn reconnect_delay_doubles_up_to_cap() {
    assert_eq!(next_reconnect_delay(2), 4);
    assert_eq!(next_reconnect_delay(16), 32);
    assert_eq!(next_reconnect_delay(32), 60);
    assert_eq!(next_reconnect_delay(60), 60);
}

#[test]
fn supervisor_backoff_schedule() {
    let mut s = NatsSupervisor::new();
    let mut waits = Vec::new();
    for _ in 0..7 {
        match s.step(SupervisorEvent::ConnectFailed) {
            SupervisorAction::RetryAfter(d) => waits.push(d),
            other => panic!("unexpected {:?}", other),
        }
    }
    assert_eq!(waits, vec![2, 4, 8, 16, 32, 60, 60]);
    assert_eq!(s.step(SupervisorEvent::Connected), SupervisorAction::StartWorkers);
    assert_eq!(s.current_delay(), 2);
    assert_eq!(s.step(SupervisorEvent::SubscribersExited), SupervisorAction::Reconnect);
    assert_eq!(s.step(SupervisorEvent::ConnectFailed), SupervisorAction::RetryAfter(2));
    assert_eq!(s.step(SupervisorEvent::ShutdownRequested), SupervisorAction::Stop);
}

#[test]
fn worker_decisions() {
    assert_eq!(cycle_counter(CycleOutcome::Completed), CycleCounter::Cycles);
    assert_eq!(cycle_counter(CycleOutcome::Failed), CycleCounter::Errors);
    assert_eq!(cycle_counter(CycleOutcome::Panicked), CycleCounter::Errors);
    assert!(partition_due(1));
    assert!(!partition_due(2));
    assert!(!partition_due(31));
    assert!(integration_configured(&vec!["user".to_string(), "pass".to_string()]));
    assert!(!integration_configured(&vec!["user".to_string(), String::new()]));
    assert!(integration_configured(&vec![]));
    let subjects = subscriber_subjects();
    assert_eq!(subjects.len(), 9);
    assert_eq!(subjects[0], "events.customer.>");
    assert_eq!(subjects[8], "events.installation.>");
}
