//! Decisions of the NATS supervisor: connect with exponential backoff (never
//! giving up), start the workers that need NATS once connected, and reconnect
//! when the subscribers' streams end.
use vstd::prelude::*;

verus! {

/// First delay before retrying a failed connection, in seconds.
pub const INITIAL_RECONNECT_DELAY_SECS: u64 = 2;

/// Longest delay between connection attempts, in seconds.
pub const MAX_RECONNECT_DELAY_SECS: u64 = 60;

/// The delay after a further failed attempt: doubled, capped at the maximum.
pub open spec fn backoff(delay: nat) -> nat {
    if 2 * delay <= 60 {
        2 * delay
    } else {
        60
    }
}

/// Delay before the attempt that follows a failure waited `delay_secs`.
pub fn next_reconnect_delay(delay_secs: u64) -> (next: u64)
    requires
        delay_secs <= u64::MAX / 2,
    ensures
        next as nat == backoff(delay_secs as nat),
{
    let doubled = delay_secs * 2;
    if doubled <= MAX_RECONNECT_DELAY_SECS {
        doubled
    } else {
        MAX_RECONNECT_DELAY_SECS
    }
}

/// What the supervisor observed.
#[derive(Debug, Clone, Copy, PartialEq, Eq, Structural)]
pub enum SupervisorEvent {
    /// Connecting to NATS failed.
    ConnectFailed,
    /// Connected to NATS (JetStream setup is best effort and does not matter here).
    Connected,
    /// The event subscribers returned: the connection dropped.
    SubscribersExited,
    /// The process is shutting down.
    ShutdownRequested,
}

/// What the supervisor does next.
#[derive(Debug, Clone, Copy, PartialEq, Eq, Structural)]
pub enum SupervisorAction {
    /// Wait this many seconds (or until shutdown), then try to connect again.
    RetryAfter(u64),
    /// Publish the client and start the workers that need NATS.
    StartWorkers,
    /// Mark NATS offline, stop the workers, and connect again.
    Reconnect,
    /// Stop the workers and return.
    Stop,
}

/// Reconnect state of the NATS supervisor.
pub struct NatsSupervisor {
    delay_secs: u64,
}

impl View for NatsSupervisor {
    type V = nat;

    /// The delay the next failed attempt waits.
    closed spec fn view(&self) -> nat {
        self.delay_secs as nat
    }
}

/// The action for an event, given the current delay.
pub open spec fn action_for(delay: nat, event: SupervisorEvent) -> SupervisorAction {
    match event {
        SupervisorEvent::ConnectFailed => SupervisorAction::RetryAfter(delay as u64),
        SupervisorEvent::Connected => SupervisorAction::StartWorkers,
        SupervisorEvent::SubscribersExited => SupervisorAction::Reconnect,
        SupervisorEvent::ShutdownRequested => SupervisorAction::Stop,
    }
}

/// The delay after an event.
pub open spec fn delay_after(delay: nat, event: SupervisorEvent) -> nat {
    match event {
        SupervisorEvent::ConnectFailed => backoff(delay),
        SupervisorEvent::Connected => 2,
        _ => delay,
    }
}

impl NatsSupervisor {
    #[verifier::type_invariant]
    closed spec fn delay_in_bounds(&self) -> bool {
        2 <= self.delay_secs <= 60
    }

    /// A supervisor that has not tried to connect yet.
    pub fn new() -> (s: Self)
        ensures
            s@ == 2,
    {
        NatsSupervisor { delay_secs: INITIAL_RECONNECT_DELAY_SECS }
    }

    /// Decide what to do on `event`.
    pub fn step(&mut self, event: SupervisorEvent) -> (action: SupervisorAction)
        ensures
            action == action_for(old(self)@, event),
            final(self)@ == delay_after(old(self)@, event),
            2 <= final(self)@ <= 60,
    {
        proof {
            use_type_invariant(&*self);
        }
        match event {
            SupervisorEvent::ConnectFailed => {
                let wait = self.delay_secs;
                self.delay_secs = next_reconnect_delay(wait);
                SupervisorAction::RetryAfter(wait)
            },
            SupervisorEvent::Connected => {
                self.delay_secs = INITIAL_RECONNECT_DELAY_SECS;
                SupervisorAction::StartWorkers
            },
            SupervisorEvent::SubscribersExited => SupervisorAction::Reconnect,
            SupervisorEvent::ShutdownRequested => SupervisorAction::Stop,
        }
    }

    /// The delay the next failed attempt waits.
    pub fn current_delay(&self) -> (d: u64)
        ensures
            d as nat == self@,
    {
        self.delay_secs
    }
}

/// `n` failed attempts in a row, starting from `delay`.
pub open spec fn delay_after_failures(delay: nat, n: nat) -> nat
    decreases n,
{
    if n == 0 {
        delay
    } else {
        backoff(delay_after_failures(delay, (n - 1) as nat))
    }
}

/// The reconnect delay never leaves [2, 60] seconds and never shrinks while
/// attempts keep failing.
pub proof fn law_backoff_bounded_and_growing(delay: nat)
    requires
        2 <= delay <= 60,
    ensures
        2 <= backoff(delay) <= 60,
        delay <= backoff(delay),
{
}

/// From the initial delay, failures wait 2, 4, 8, 16, 32 seconds, and every
/// later failure waits the 60-second cap.
pub proof fn law_backoff_schedule(n: nat)
    ensures
        n <= 4 ==> delay_after_failures(2, n) == vstd::arithmetic::power2::pow2(n + 1),
        n >= 5 ==> delay_after_failures(2, n) == 60,
    decreases n,
{
    vstd::arithmetic::power2::lemma2_to64();
    if n > 0 {
        law_backoff_schedule((n - 1) as nat);
    }
}

/// A successful connection resets the delay, so the next outage starts over
/// at 2 seconds.
pub proof fn law_connect_resets_backoff(delay: nat)
    ensures
        delay_after(delay, SupervisorEvent::Connected) == 2,
        action_for(delay_after(delay, SupervisorEvent::Connected), SupervisorEvent::ConnectFailed)
            == SupervisorAction::RetryAfter(2),
{
}

/// The delay after a sequence of events, starting from `delay`.
pub open spec fn delay_of(delay: nat, events: Seq<SupervisorEvent>) -> nat
    decreases events.len(),
{
    if events.len() == 0 {
        delay
    } else {
        delay_after(delay_of(delay, events.drop_last()), events.last())
    }
}

/// The actions the supervisor takes on a sequence of events, starting from
/// `delay`.
pub open spec fn actions_of(delay: nat, events: Seq<SupervisorEvent>) -> Seq<SupervisorAction>
    decreases events.len(),
{
    if events.len() == 0 {
        Seq::empty()
    } else {
        actions_of(delay, events.drop_last()).push(
            action_for(delay_of(delay, events.drop_last()), events.last()),
        )
    }
}

/// `k` failed connection attempts in a row.
pub open spec fn failed_attempts(k: nat) -> Seq<SupervisorEvent> {
    Seq::new(k, |i: int| SupervisorEvent::ConnectFailed)
}

proof fn lemma_failed_run(k: nat)
    ensures
        delay_of(2, failed_attempts(k)) == delay_after_failures(2, k),
        actions_of(2, failed_attempts(k)).len() == k,
        forall|i: int| 0 <= i < k ==> #[trigger] actions_of(2, failed_attempts(k))[i]
            == SupervisorAction::RetryAfter(delay_after_failures(2, i as nat) as u64),
    decreases k,
{
    if k > 0 {
        let prev = (k - 1) as nat;
        lemma_failed_run(prev);
        assert(failed_attempts(k).drop_last() =~= failed_attempts(prev));
    }
}

/// A supervisor that fails to connect `k` times and then connects waits 2,
/// 4, 8, 16, 32, then 60 seconds between attempts (the i-th failure waits
/// `delay_after_failures(2, i - 1)`), never gives up, starts the workers
/// once connected, and is back at the initial 2-second delay.
pub proof fn law_retries_until_connected(k: nat)
    ensures
        ({
            let events = failed_attempts(k).push(SupervisorEvent::Connected);
            let actions = actions_of(2, events);
            &&& actions.len() == k + 1
            &&& forall|i: int| 0 <= i < k ==> #[trigger] actions[i]
                == SupervisorAction::RetryAfter(delay_after_failures(2, i as nat) as u64)
            &&& actions[k as int] == SupervisorAction::StartWorkers
            &&& delay_of(2, events) == 2
            &&& forall|i: int| 0 <= i <= k ==> actions[i] != SupervisorAction::Stop
        }),
{
    let events = failed_attempts(k).push(SupervisorEvent::Connected);
    lemma_failed_run(k);
    assert(events.drop_last() =~= failed_attempts(k));
    let actions = actions_of(2, events);
    assert forall|i: int| 0 <= i < k implies #[trigger] actions[i]
        == SupervisorAction::RetryAfter(delay_after_failures(2, i as nat) as u64) by {
        assert(actions[i] == actions_of(2, failed_attempts(k))[i]);
    }
    assert forall|i: int| 0 <= i <= k implies actions[i] != SupervisorAction::Stop by {
        if i < k {
            assert(actions[i] == actions_of(2, failed_attempts(k))[i]);
        }
    }
}

/// What the supervisor does on each event: a failed attempt waits the
/// current delay and doubles it (at most 60 seconds); a connection starts the
/// workers and resets the delay to 2 seconds; subscribers that exit lead to a
/// reconnect; a shutdown stops it. It stops on nothing but a shutdown.
pub proof fn law_supervisor_steps(delay: nat)
    ensures
        action_for(delay, SupervisorEvent::ConnectFailed) == SupervisorAction::RetryAfter(delay as u64),
        delay_after(delay, SupervisorEvent::ConnectFailed) == (if 2 * delay <= 60 { 2 * delay } else { 60 }),
        action_for(delay, SupervisorEvent::Connected) == SupervisorAction::StartWorkers,
        delay_after(delay, SupervisorEvent::Connected) == 2,
        action_for(delay, SupervisorEvent::SubscribersExited) == SupervisorAction::Reconnect,
        delay_after(delay, SupervisorEvent::SubscribersExited) == delay,
        action_for(delay, SupervisorEvent::ShutdownRequested) == SupervisorAction::Stop,
        forall|e: SupervisorEvent| #[trigger] action_for(delay, e) == SupervisorAction::Stop
            ==> e == SupervisorEvent::ShutdownRequested,
{
}

} // verus!
