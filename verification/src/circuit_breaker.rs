//! Circuit breaker for calls to external services.
//!
//! States:
//! - **Closed** (normal): requests pass through. Failures are counted.
//! - **Open** (tripped): requests are rejected. Once the reset timeout has
//!   elapsed since the last failure, the next check moves it to Half-Open.
//! - **Half-Open**: one probe request is allowed through (the request whose
//!   check moved the breaker to Half-Open); further checks are refused until
//!   the probe's outcome is recorded.
//!   - Success → Closed
//!   - Failure → Open
use core::time::Duration;
use std::time::Instant;
use vstd::prelude::*;

use crate::text::owned;

verus! {

/// `std::time::Instant`, carried opaquely as the time of the last failure.
#[verifier::external_type_specification]
#[verifier::external_body]
pub struct ExInstant(Instant);

/// `std::time::Instant::now`: the current monotonic time. Nothing is stated
/// of the value, which depends on the clock.
#[verifier::external_body]
fn instant_now() -> Instant {
    Instant::now()
}

/// What `Instant::duration_since` gives for two instants: the time from
/// `earlier` to `later` (zero when `earlier` is the later one).
pub uninterp spec fn instant_duration_since(later: Instant, earlier: Instant) -> Duration;

/// `Instant::duration_since`: the time elapsed from `earlier` to `later`,
/// saturating at zero; it depends on the two instants alone.
#[verifier::external_body]
fn duration_between(later: &Instant, earlier: &Instant) -> (d: Duration)
    ensures
        d == instant_duration_since(*later, *earlier),
{
    later.duration_since(*earlier)
}

/// What `Duration::as_nanos` gives for a duration: its length in whole
/// nanoseconds.
pub uninterp spec fn duration_as_nanos(d: Duration) -> u128;

/// `Duration::as_nanos`: the whole duration in nanoseconds; the same
/// duration always gives the same number.
#[verifier::external_body]
fn duration_nanos(d: &Duration) -> (n: u128)
    ensures
        n == duration_as_nanos(*d),
{
    d.as_nanos()
}

/// Nanoseconds from `earlier` to `later`.
pub open spec fn nanos_between(later: Instant, earlier: Instant) -> u128 {
    duration_as_nanos(instant_duration_since(later, earlier))
}

/// State of a circuit breaker.
#[derive(Debug, Clone, Copy, PartialEq, Eq, Structural)]
pub enum CircuitState {
    Closed,
    Open,
    HalfOpen,
}

/// Abstract state of a breaker: its name, its state, the number of failures
/// counted since the last success, the threshold it trips at, its reset
/// timeout in nanoseconds, and the time of the last failure.
pub struct CircuitModel {
    pub name: Seq<char>,
    pub state: CircuitState,
    pub failures: nat,
    pub threshold: nat,
    pub timeout_nanos: nat,
    pub last_failure: Option<Instant>,
}

/// The invariant every breaker keeps: it is only away from Closed after it has
/// counted at least `threshold` failures, the last of which has a time.
pub open spec fn model_wf(m: CircuitModel) -> bool {
    m.state != CircuitState::Closed ==> (m.failures >= m.threshold && m.last_failure is Some)
}

/// Effect of `record_failure` at time `at`.
pub open spec fn after_failure(m: CircuitModel, at: Instant) -> CircuitModel {
    let f = m.failures + 1;
    CircuitModel {
        state: if f >= m.threshold { CircuitState::Open } else { m.state },
        failures: f,
        last_failure: Some(at),
        ..m
    }
}

/// Effect of `record_success`.
pub open spec fn after_success(m: CircuitModel) -> CircuitModel {
    CircuitModel { state: CircuitState::Closed, failures: 0, ..m }
}

/// Whether the reset timeout has elapsed, given the nanoseconds that have
/// passed since the last failure: a failure is recorded and at least the
/// timeout has passed since it.
pub open spec fn timeout_elapsed(m: CircuitModel, passed_nanos: u128) -> bool {
    m.last_failure is Some && passed_nanos >= m.timeout_nanos
}

/// Answer of a `can_proceed` check, given whether the reset timeout has
/// elapsed since the last failure. Closed lets requests through; Open lets
/// the first request after the timeout through as the probe; Half-Open
/// refuses while the probe's outcome is pending.
pub open spec fn check_allows(m: CircuitModel, elapsed: bool) -> bool {
    match m.state {
        CircuitState::Closed => true,
        CircuitState::HalfOpen => false,
        CircuitState::Open => m.last_failure is Some && elapsed,
    }
}

/// State after a `can_proceed` check: an Open breaker whose timeout has
/// elapsed moves to Half-Open; nothing else changes.
pub open spec fn after_check(m: CircuitModel, elapsed: bool) -> CircuitModel {
    if m.state == CircuitState::Open && check_allows(m, elapsed) {
        CircuitModel { state: CircuitState::HalfOpen, ..m }
    } else {
        m
    }
}

/// `n` failures recorded one after another, all at time `at`.
pub open spec fn after_failures(m: CircuitModel, n: nat, at: Instant) -> CircuitModel
    decreases n,
{
    if n == 0 {
        m
    } else {
        after_failure(after_failures(m, (n - 1) as nat, at), at)
    }
}

/// An operation on a breaker.
pub enum CircuitOp {
    /// A `can_proceed` check, with whether the timeout had elapsed.
    Check(bool),
    /// `record_success`.
    Success,
    /// `record_failure` at the given time.
    Failure(Instant),
}

/// The breaker after a sequence of operations.
pub open spec fn run_ops(m: CircuitModel, ops: Seq<CircuitOp>) -> CircuitModel
    decreases ops.len(),
{
    if ops.len() == 0 {
        m
    } else {
        let prev = run_ops(m, ops.drop_last());
        match ops.last() {
            CircuitOp::Check(elapsed) => after_check(prev, elapsed),
            CircuitOp::Success => after_success(prev),
            CircuitOp::Failure(at) => after_failure(prev, at),
        }
    }
}

/// Circuit breaker state for external service calls.
pub struct CircuitBreaker {
    name: String,
    failure_threshold: u64,
    reset_timeout: Duration,
    /// The reset timeout, in nanoseconds.
    reset_timeout_nanos: u128,
    state: CircuitState,
    failure_count: u64,
    last_failure: Option<Instant>,
}

impl View for CircuitBreaker {
    type V = CircuitModel;

    closed spec fn view(&self) -> CircuitModel {
        CircuitModel {
            name: self.name@,
            state: self.state,
            failures: self.failure_count as nat,
            threshold: self.failure_threshold as nat,
            timeout_nanos: self.reset_timeout_nanos as nat,
            last_failure: self.last_failure,
        }
    }
}

impl CircuitBreaker {
    #[verifier::type_invariant]
    closed spec fn keeps_invariant(&self) -> bool {
        &&& self.state != CircuitState::Closed ==> self.failure_count >= self.failure_threshold
        &&& self.state != CircuitState::Closed ==> self.last_failure is Some
        &&& self.reset_timeout_nanos == duration_as_nanos(self.reset_timeout)
    }

    /// The reset timeout the breaker was created with.
    pub closed spec fn reset_timeout(&self) -> Duration {
        self.reset_timeout
    }

    /// The name the breaker was created with.
    pub open spec fn name_view(&self) -> Seq<char> {
        self@.name
    }

    /// A new breaker: Closed, with no failures counted, keeping the given
    /// name, threshold and reset timeout.
    pub fn new(name: &str, failure_threshold: u64, reset_timeout: Duration) -> (cb: Self)
        ensures
            cb@ == (CircuitModel {
                name: name@,
                state: CircuitState::Closed,
                failures: 0,
                threshold: failure_threshold as nat,
                timeout_nanos: duration_as_nanos(reset_timeout) as nat,
                last_failure: None,
            }),
            cb.reset_timeout() == reset_timeout,
    {
        let reset_timeout_nanos = duration_nanos(&reset_timeout);
        CircuitBreaker {
            name: owned(name),
            failure_threshold,
            reset_timeout,
            reset_timeout_nanos,
            state: CircuitState::Closed,
            failure_count: 0,
            last_failure: None,
        }
    }

    /// Check whether a request should be allowed, where `timeout_elapsed` says
    /// whether the reset timeout has passed since the last failure.
    pub fn can_proceed_given(&mut self, timeout_elapsed: bool) -> (allowed: bool)
        ensures
            allowed == check_allows(old(self)@, timeout_elapsed),
            final(self)@ == after_check(old(self)@, timeout_elapsed),
            final(self).reset_timeout() == old(self).reset_timeout(),
            model_wf(final(self)@),
    {
        proof {
            use_type_invariant(&*self);
        }
        match self.state {
            CircuitState::Closed => true,
            CircuitState::HalfOpen => false,
            CircuitState::Open => {
                if self.last_failure.is_some() && timeout_elapsed {
                    self.state = CircuitState::HalfOpen;
                    true
                } else {
                    false
                }
            },
        }
    }

    /// Whether the reset timeout has elapsed, given the nanoseconds that have
    /// passed since the last failure.
    pub fn reset_timeout_elapsed(&self, passed_nanos: u128) -> (elapsed: bool)
        ensures
            elapsed == timeout_elapsed(self@, passed_nanos),
    {
        self.last_failure.is_some() && passed_nanos >= self.reset_timeout_nanos
    }

    /// Nanoseconds passed since the last failure, measured from the last
    /// failure to the current time read from the clock; `None` when no
    /// failure has been recorded.
    fn nanos_since_last_failure(&self) -> (passed: Option<u128>)
        ensures
            self@.last_failure is None ==> passed is None,
            self@.last_failure matches Some(last) ==> (passed matches Some(p)
                && exists|now: Instant| p == #[trigger] nanos_between(now, last)),
    {
        match &self.last_failure {
            Some(last) => {
                let now = instant_now();
                let p = duration_nanos(&duration_between(&now, last));
                assert(p == nanos_between(now, *last));
                Some(p)
            },
            None => None,
        }
    }

    /// Check if a request should be allowed. A Closed breaker allows it. An
    /// Open breaker allows it, as the probe, once the reset timeout has
    /// elapsed from the last failure to now (the current time is read from
    /// the clock), and moves to Half-Open. A Half-Open breaker refuses it
    /// until the probe's outcome is recorded.
    pub fn can_proceed(&mut self) -> (allowed: bool)
        ensures
            old(self)@.last_failure matches Some(last) ==> exists|now: Instant|
                allowed == check_allows(old(self)@, timeout_elapsed(old(self)@, #[trigger] nanos_between(now, last)))
                && final(self)@ == after_check(old(self)@, timeout_elapsed(old(self)@, nanos_between(now, last))),
            old(self)@.last_failure is None ==> allowed == check_allows(old(self)@, false)
                && final(self)@ == after_check(old(self)@, false),
            old(self)@.state == CircuitState::Closed ==> allowed && final(self)@ == old(self)@,
            old(self)@.state == CircuitState::HalfOpen ==> !allowed && final(self)@ == old(self)@,
            old(self)@.state == CircuitState::Open ==> (
                allowed ==> final(self)@ == (CircuitModel { state: CircuitState::HalfOpen, ..old(self)@ })),
            old(self)@.state == CircuitState::Open ==> (!allowed ==> final(self)@ == old(self)@),
            (old(self)@.state == CircuitState::Open && old(self)@.timeout_nanos == 0) ==> allowed,
            final(self).reset_timeout() == old(self).reset_timeout(),
            model_wf(final(self)@),
    {
        proof {
            use_type_invariant(&*self);
        }
        let ghost before = self@;
        let passed = self.nanos_since_last_failure();
        let elapsed = match passed {
            Some(p) => self.reset_timeout_elapsed(p),
            None => false,
        };
        let allowed = self.can_proceed_given(elapsed);
        proof {
            if let Some(last) = before.last_failure {
                let p = passed->0;
                let now = choose|now: Instant| p == #[trigger] nanos_between(now, last);
                assert(elapsed == timeout_elapsed(before, nanos_between(now, last)));
            }
        }
        allowed
    }

    /// Record a successful call: the breaker closes and its failure count resets.
    pub fn record_success(&mut self)
        ensures
            final(self)@ == after_success(old(self)@),
            final(self).reset_timeout() == old(self).reset_timeout(),
            model_wf(final(self)@),
    {
        proof {
            use_type_invariant(&*self);
        }
        self.state = CircuitState::Closed;
        self.failure_count = 0;
    }

    /// Record a failed call: the failure is counted and timed (at the current
    /// time), and the breaker opens once the count reaches the threshold.
    pub fn record_failure(&mut self)
        requires
            old(self)@.failures < u64::MAX,
        ensures
            final(self)@.last_failure is Some,
            final(self)@ == after_failure(old(self)@, final(self)@.last_failure->0),
            final(self).reset_timeout() == old(self).reset_timeout(),
            model_wf(final(self)@),
    {
        proof {
            use_type_invariant(&*self);
        }
        let count = self.failure_count + 1;
        self.failure_count = count;
        self.last_failure = Some(instant_now());
        if count >= self.failure_threshold {
            self.state = CircuitState::Open;
        }
    }

    /// The breaker's current state.
    pub fn current_state(&self) -> (s: CircuitState)
        ensures
            s == self@.state,
    {
        self.state
    }

    /// Number of failures counted since the last success.
    pub fn failure_count(&self) -> (n: u64)
        ensures
            n as nat == self@.failures,
    {
        self.failure_count
    }

    /// The breaker's name.
    pub fn name(&self) -> (n: &str)
        ensures
            n@ == self.name_view(),
    {
        self.name.as_str()
    }
}

/// Every transition keeps the breaker's invariant.
pub proof fn law_transitions_keep_invariant(m: CircuitModel, elapsed: bool, at: Instant)
    requires
        model_wf(m),
    ensures
        model_wf(after_failure(m, at)),
        model_wf(after_success(m)),
        model_wf(after_check(m, elapsed)),
{
}

/// A Closed breaker lets every request through and is left as it was.
pub proof fn law_closed_allows(m: CircuitModel, elapsed: bool)
    requires
        m.state == CircuitState::Closed,
    ensures
        check_allows(m, elapsed),
        after_check(m, elapsed) == m,
{
}

/// Half-Open admits one probe: the check that lets a request through from
/// Open leaves the breaker Half-Open, and every further check is refused,
/// leaving it Half-Open, until a success or a failure is recorded.
pub proof fn law_half_open_admits_one_probe(m: CircuitModel, elapsed: bool, later: bool)
    requires
        model_wf(m),
        m.state == CircuitState::Open,
        check_allows(m, elapsed),
    ensures
        after_check(m, elapsed).state == CircuitState::HalfOpen,
        !check_allows(after_check(m, elapsed), later),
        after_check(after_check(m, elapsed), later) == after_check(m, elapsed),
{
}

/// An Open breaker rejects requests until its reset timeout has elapsed; once
/// it has, the check allows one probe and moves the breaker to Half-Open. With
/// a zero timeout the first check after the failure already allows it.
pub proof fn law_open_waits_for_timeout(m: CircuitModel, passed_nanos: u128)
    requires
        model_wf(m),
        m.state == CircuitState::Open,
    ensures
        check_allows(m, timeout_elapsed(m, passed_nanos)) == (passed_nanos >= m.timeout_nanos),
        passed_nanos < m.timeout_nanos ==> after_check(m, timeout_elapsed(m, passed_nanos)) == m,
        passed_nanos >= m.timeout_nanos ==> after_check(m, timeout_elapsed(m, passed_nanos)).state
            == CircuitState::HalfOpen,
        m.timeout_nanos == 0 ==> check_allows(m, timeout_elapsed(m, passed_nanos)),
{
}

/// A success closes the breaker from any state, clears the failure count, and
/// the next check lets requests through.
pub proof fn law_success_closes(m: CircuitModel, elapsed: bool)
    ensures
        after_success(m).state == CircuitState::Closed,
        after_success(m).failures == 0,
        check_allows(after_success(m), elapsed),
{
}

/// A failure during the Half-Open probe opens the breaker again.
pub proof fn law_half_open_failure_reopens(m: CircuitModel, at: Instant)
    requires
        model_wf(m),
        m.state == CircuitState::HalfOpen,
    ensures
        after_failure(m, at).state == CircuitState::Open,
{
}

/// From a freshly closed breaker, fewer failures than the threshold leave it
/// Closed and reaching the threshold opens it.
pub proof fn law_trips_at_threshold(m: CircuitModel, n: nat, at: Instant)
    requires
        m.state == CircuitState::Closed,
        m.failures == 0,
    ensures
        after_failures(m, n, at).failures == n,
        after_failures(m, n, at).threshold == m.threshold,
        n < m.threshold ==> after_failures(m, n, at).state == CircuitState::Closed,
        n >= m.threshold && n > 0 ==> after_failures(m, n, at).state == CircuitState::Open,
    decreases n,
{
    if n > 0 {
        law_trips_at_threshold(m, (n - 1) as nat, at);
    }
}

/// A breaker's name never changes: `new(n, ..)` gives a model named `n`,
/// `can_proceed`, `record_success` and `record_failure` each move the model by
/// one operation (a check, a success, a failure), and after any sequence of
/// them the model, and so `name()`, still holds `n`.
pub proof fn law_name_never_changes(m: CircuitModel, ops: Seq<CircuitOp>)
    ensures
        run_ops(m, ops).name == m.name,
    decreases ops.len(),
{
    if ops.len() > 0 {
        law_name_never_changes(m, ops.drop_last());
    }
}

/// No sequence of checks, successes and failures changes a breaker's name,
/// threshold or reset timeout, and every such sequence keeps its invariant.
pub proof fn law_operations_keep_configuration(m: CircuitModel, ops: Seq<CircuitOp>)
    requires
        model_wf(m),
    ensures
        run_ops(m, ops).name == m.name,
        run_ops(m, ops).threshold == m.threshold,
        run_ops(m, ops).timeout_nanos == m.timeout_nanos,
        model_wf(run_ops(m, ops)),
    decreases ops.len(),
{
    if ops.len() > 0 {
        law_operations_keep_configuration(m, ops.drop_last());
    }
}

} // verus!
