//! Provider health management: a circuit breaker that stops calls to a
//! failing provider, and a tracker of token usage.

use vstd::prelude::*;
use std::time::Instant;
use crate::constants::{DEFAULT_CIRCUIT_FAILURE_THRESHOLD, DEFAULT_CIRCUIT_SUCCESS_THRESHOLD, DEFAULT_CIRCUIT_TIMEOUT_SECS};
use crate::duration::Duration;

verus! {

#[verifier::external_type_specification]
#[verifier::external_body]
pub struct ExInstant(std::time::Instant);

/// Calls `std::time::Instant::now`. Nothing is claimed of the result.
#[verifier::external_body]
fn instant_now() -> Instant {
    Instant::now()
}

/// Calls `std::time::Instant::elapsed` and returns it in nanoseconds.
/// Nothing is claimed of the result: it depends on the time.
#[verifier::external_body]
fn elapsed_nanos(since: &Instant) -> u128 {
    since.elapsed().as_nanos()
}

/// Whether more than `timeout` has passed since `since`.
fn elapsed_beyond(since: &Instant, timeout: Duration) -> bool {
    elapsed_nanos(since) > timeout.as_secs() as u128 * 1_000_000_000
}

/// State of a circuit breaker.
#[derive(Debug, Clone, Copy, PartialEq, Eq, Hash, Structural)]
pub enum CircuitState {
    /// Calls pass through
    Closed,
    /// Calls are refused until the timeout has passed since the last failure
    Open,
    /// Calls pass through on trial; enough successes close the circuit
    HalfOpen,
}

/// Configuration for circuit breaker.
#[derive(Debug, Clone)]
pub struct CircuitBreakerConfig {
    pub failure_threshold: u32,
    pub success_threshold: u32,
    pub timeout: Duration,
}

impl Default for CircuitBreakerConfig {
    fn default() -> (c: Self)
        ensures
            c.failure_threshold == DEFAULT_CIRCUIT_FAILURE_THRESHOLD,
            c.success_threshold == DEFAULT_CIRCUIT_SUCCESS_THRESHOLD,
            c.timeout.spec_secs() == DEFAULT_CIRCUIT_TIMEOUT_SECS,
    {
        CircuitBreakerConfig {
            failure_threshold: DEFAULT_CIRCUIT_FAILURE_THRESHOLD,
            success_threshold: DEFAULT_CIRCUIT_SUCCESS_THRESHOLD,
            timeout: Duration::from_secs(DEFAULT_CIRCUIT_TIMEOUT_SECS),
        }
    }
}

/// The state of a circuit breaker as its rules see it.
pub struct CircuitView {
    pub state: CircuitState,
    /// Failures since the last success or reset
    pub failure_count: u32,
    /// Successes counted while half-open
    pub success_count: u32,
    /// Whether a failure time is recorded
    pub failed_before: bool,
    pub failure_threshold: u32,
    pub success_threshold: u32,
}

/// The circuit after a recorded success: the failure count clears; while
/// half-open the success count grows, and reaching the success threshold
/// closes the circuit and clears it.
pub open spec fn after_success(v: CircuitView) -> CircuitView {
    if v.state == CircuitState::HalfOpen {
        if v.success_count + 1 >= v.success_threshold {
            CircuitView { state: CircuitState::Closed, failure_count: 0, success_count: 0, ..v }
        } else {
            CircuitView { failure_count: 0, success_count: (v.success_count + 1) as u32, ..v }
        }
    } else {
        CircuitView { failure_count: 0, ..v }
    }
}

/// The circuit after a recorded failure: the success count clears, the
/// failure time is recorded, the failure count grows, and reaching the
/// failure threshold opens the circuit.
pub open spec fn after_failure(v: CircuitView) -> CircuitView {
    let count = (v.failure_count + 1) as u32;
    CircuitView {
        state: if count >= v.failure_threshold { CircuitState::Open } else { v.state },
        failure_count: count,
        success_count: 0,
        failed_before: true,
        ..v
    }
}

/// Whether a call is allowed, given whether the timeout has passed since the
/// last recorded failure: always when closed or half-open; when open, only
/// once the timeout has passed since a recorded failure.
pub open spec fn call_allowed(v: CircuitView, timed_out: bool) -> bool {
    match v.state {
        CircuitState::Closed => true,
        CircuitState::Open => v.failed_before && timed_out,
        CircuitState::HalfOpen => true,
    }
}

/// The circuit after asking whether a call is allowed: an open circuit whose
/// timeout has passed becomes half-open.
pub open spec fn after_check(v: CircuitView, timed_out: bool) -> CircuitView {
    if v.state == CircuitState::Open && v.failed_before && timed_out {
        CircuitView { state: CircuitState::HalfOpen, ..v }
    } else {
        v
    }
}

/// The counters that a breaker keeps below their bounds.
pub open spec fn counts_bounded(v: CircuitView) -> bool {
    v.success_count == 0 || v.success_count < v.success_threshold
}

/// Circuit breaker for provider health management.
pub struct CircuitBreaker {
    state: CircuitState,
    failure_count: u32,
    success_count: u32,
    last_failure: Option<Instant>,
    config: CircuitBreakerConfig,
}

impl View for CircuitBreaker {
    type V = CircuitView;

    closed spec fn view(&self) -> CircuitView {
        CircuitView {
            state: self.state,
            failure_count: self.failure_count,
            success_count: self.success_count,
            failed_before: self.last_failure is Some,
            failure_threshold: self.config.failure_threshold,
            success_threshold: self.config.success_threshold,
        }
    }
}

impl CircuitBreaker {
    #[verifier::type_invariant]
    spec fn inv(self) -> bool {
        counts_bounded(self@)
    }

    /// The configured timeout after which an open circuit may be retried.
    pub closed spec fn timeout(&self) -> Duration {
        self.config.timeout
    }

    /// A closed breaker with no failures or successes counted.
    pub fn new(config: CircuitBreakerConfig) -> (cb: Self)
        ensures
            cb@.state == CircuitState::Closed,
            cb@.failure_count == 0,
            cb@.success_count == 0,
            !cb@.failed_before,
            cb@.failure_threshold == config.failure_threshold,
            cb@.success_threshold == config.success_threshold,
            cb.timeout() == config.timeout,
    {
        CircuitBreaker { state: CircuitState::Closed, failure_count: 0, success_count: 0, last_failure: None, config }
    }

    /// The current state.
    pub fn state(&self) -> (s: CircuitState)
        ensures
            s == self@.state,
    {
        self.state
    }

    /// Whether a call is allowed, given whether the timeout has passed since
    /// the last failure; an open circuit whose timeout has passed turns
    /// half-open.
    pub fn is_allowed_after(&mut self, timed_out: bool) -> (b: bool)
        ensures
            b == call_allowed(old(self)@, timed_out),
            final(self)@ == after_check(old(self)@, timed_out),
            final(self).timeout() == old(self).timeout(),
    {
        proof { use_type_invariant(&*self); }
        match self.state {
            CircuitState::Closed => true,
            CircuitState::Open => {
                if self.last_failure.is_some() && timed_out {
                    self.state = CircuitState::HalfOpen;
                    true
                } else {
                    false
                }
            },
            CircuitState::HalfOpen => true,
        }
    }

    /// Whether a call is allowed now. When open, the time since the last
    /// failure is compared with the configured timeout; see `is_allowed_after`.
    pub fn is_allowed(&mut self) -> (b: bool)
        ensures
            exists|timed_out: bool| b == call_allowed(old(self)@, timed_out)
                && final(self)@ == after_check(old(self)@, timed_out),
            old(self)@.state != CircuitState::Open ==> b && final(self)@ == old(self)@,
            final(self).timeout() == old(self).timeout(),
    {
        let timed_out = match &self.last_failure {
            Some(last) => {
                if self.state == CircuitState::Open {
                    elapsed_beyond(last, self.config.timeout)
                } else {
                    false
                }
            },
            None => false,
        };
        self.is_allowed_after(timed_out)
    }

    /// Record a successful call.
    pub fn record_success(&mut self)
        ensures
            final(self)@ == after_success(old(self)@),
            final(self).timeout() == old(self).timeout(),
    {
        proof { use_type_invariant(&*self); }
        self.failure_count = 0;
        if self.state == CircuitState::HalfOpen {
            let count = self.success_count + 1;
            if count >= self.config.success_threshold {
                self.state = CircuitState::Closed;
                self.success_count = 0;
            } else {
                self.success_count = count;
            }
        }
    }

    /// Record a failed call, remembering when it happened.
    pub fn record_failure(&mut self)
        requires
            old(self)@.failure_count < u32::MAX,
        ensures
            final(self)@ == after_failure(old(self)@),
            final(self).timeout() == old(self).timeout(),
            final(self)@.failure_count == old(self)@.failure_count + 1,
            final(self)@.success_count == 0,
            final(self)@.failed_before,
            old(self)@.failure_count + 1 >= old(self)@.failure_threshold ==> final(self)@.state == CircuitState::Open,
            old(self)@.failure_count + 1 < old(self)@.failure_threshold ==> final(self)@.state == old(self)@.state,
    {
        proof { use_type_invariant(&*self); }
        self.success_count = 0;
        self.last_failure = Some(instant_now());
        let count = self.failure_count + 1;
        self.failure_count = count;
        if count >= self.config.failure_threshold {
            self.state = CircuitState::Open;
        }
    }

    /// Return to the closed state with nothing counted or recorded.
    pub fn reset(&mut self)
        ensures
            final(self)@.state == CircuitState::Closed,
            final(self)@.failure_count == 0,
            final(self)@.success_count == 0,
            !final(self)@.failed_before,
            final(self)@.failure_threshold == old(self)@.failure_threshold,
            final(self)@.success_threshold == old(self)@.success_threshold,
            final(self).timeout() == old(self).timeout(),
    {
        proof { use_type_invariant(&*self); }
        self.state = CircuitState::Closed;
        self.failure_count = 0;
        self.success_count = 0;
        self.last_failure = None;
    }
}

/// The circuit after `n` failures in a row.
pub open spec fn after_failures(v: CircuitView, n: nat) -> CircuitView
    decreases n,
{
    if n == 0 { v } else { after_failure(after_failures(v, (n - 1) as nat)) }
}

/// The circuit after `n` successes in a row.
pub open spec fn after_successes(v: CircuitView, n: nat) -> CircuitView
    decreases n,
{
    if n == 0 { v } else { after_success(after_successes(v, (n - 1) as nat)) }
}

/// From a closed circuit with no failures counted, `n` failures in a row
/// (fewer than 2^32 - 1) leave it closed while `n` is below the failure
/// threshold and open it once `n` reaches the threshold.
pub proof fn lemma_failures_open_circuit(v: CircuitView, n: nat)
    requires
        v.state == CircuitState::Closed,
        v.failure_count == 0,
        n < u32::MAX,
    ensures
        after_failures(v, n).failure_count == n,
        after_failures(v, n).failure_threshold == v.failure_threshold,
        after_failures(v, n).state == (if n >= v.failure_threshold && n > 0 { CircuitState::Open } else { CircuitState::Closed }),
    decreases n,
{
    if n > 0 {
        lemma_failures_open_circuit(v, (n - 1) as nat);
    }
}

/// An open circuit refuses calls until the timeout has passed since a
/// recorded failure, and asking does not change it.
pub proof fn lemma_open_circuit_refuses_until_timeout(v: CircuitView)
    requires
        v.state == CircuitState::Open,
    ensures
        !call_allowed(v, false),
        after_check(v, false) == v,
        v.failed_before ==> call_allowed(v, true) && after_check(v, true).state == CircuitState::HalfOpen,
{
}

/// From a half-open circuit with no successes counted, the circuit closes
/// after exactly as many successes in a row as the success threshold asks
/// (at least one); before that it stays half-open.
pub proof fn lemma_successes_close_circuit(v: CircuitView, n: nat)
    requires
        v.state == CircuitState::HalfOpen,
        v.success_count == 0,
        1 <= n <= v.success_threshold,
    ensures
        after_successes(v, n).state == (if n == v.success_threshold { CircuitState::Closed } else { CircuitState::HalfOpen }),
        after_successes(v, n).failure_count == 0,
        after_successes(v, n).success_count == (if n == v.success_threshold { 0 } else { n }),
        after_successes(v, n).success_threshold == v.success_threshold,
    decreases n,
{
    if n > 1 {
        lemma_successes_close_circuit(v, (n - 1) as nat);
    } else {
        reveal_with_fuel(after_successes, 2);
    }
}

/// A recorded failure, whatever the state, counts one more failure, clears
/// the success count and records the failure time; once the count reaches
/// the failure threshold the circuit is open, and below it the state stays
/// as it was. In particular a failed trial call of a half-open circuit
/// whose count reaches the threshold opens it again.
pub proof fn lemma_failure_at_threshold_opens(v: CircuitView)
    requires
        v.failure_count < u32::MAX,
    ensures
        after_failure(v).failure_count == v.failure_count + 1,
        after_failure(v).success_count == 0,
        after_failure(v).failed_before,
        after_failure(v).failure_threshold == v.failure_threshold,
        after_failure(v).success_threshold == v.success_threshold,
        v.failure_count + 1 >= v.failure_threshold ==> after_failure(v).state == CircuitState::Open,
        v.failure_count + 1 < v.failure_threshold ==> after_failure(v).state == v.state,
        after_failure(v).failure_count >= v.failure_threshold ==> after_failure(v).state == CircuitState::Open,
        v.state == CircuitState::HalfOpen && v.failure_count + 1 >= v.failure_threshold
            ==> after_failure(v).state == CircuitState::Open,
{
}

/// An open circuit whose failures reached the threshold, once its timeout
/// has passed, lets one trial call through as half-open; if that call fails
/// the circuit is open again and refuses calls until the timeout passes
/// once more.
pub proof fn lemma_failed_trial_reopens(v: CircuitView)
    requires
        v.state == CircuitState::Open,
        v.failed_before,
        v.failure_count >= v.failure_threshold,
        v.failure_count < u32::MAX,
    ensures
        call_allowed(v, true),
        after_check(v, true).state == CircuitState::HalfOpen,
        after_failure(after_check(v, true)).state == CircuitState::Open,
        !call_allowed(after_failure(after_check(v, true)), false),
{
}

/// A recorded success clears the failure count. A half-open circuit counts
/// it, and closes with its success count cleared once the count reaches the
/// success threshold; a closed or open circuit keeps its state and success
/// count.
pub proof fn lemma_success_closes_at_threshold(v: CircuitView)
    requires
        counts_bounded(v),
    ensures
        after_success(v).failure_count == 0,
        after_success(v).failed_before == v.failed_before,
        after_success(v).failure_threshold == v.failure_threshold,
        after_success(v).success_threshold == v.success_threshold,
        v.state == CircuitState::HalfOpen && v.success_count + 1 >= v.success_threshold
            ==> after_success(v).state == CircuitState::Closed && after_success(v).success_count == 0,
        v.state == CircuitState::HalfOpen && v.success_count + 1 < v.success_threshold
            ==> after_success(v).state == CircuitState::HalfOpen
                && after_success(v).success_count == v.success_count + 1,
        v.state != CircuitState::HalfOpen ==> after_success(v).state == v.state
            && after_success(v).success_count == v.success_count,
{
}

/// A closed or half-open circuit lets every call through and stays as it
/// is; an open one lets a call through only once the timeout has passed
/// since a recorded failure, and then turns half-open.
pub proof fn lemma_call_admission(v: CircuitView, timed_out: bool)
    ensures
        v.state != CircuitState::Open ==> call_allowed(v, timed_out) && after_check(v, timed_out) == v,
        v.state == CircuitState::Open ==> (call_allowed(v, timed_out) <==> v.failed_before && timed_out),
        v.state == CircuitState::Open && v.failed_before && timed_out
            ==> after_check(v, timed_out) == (CircuitView { state: CircuitState::HalfOpen, ..v }),
        v.state == CircuitState::Open && !(v.failed_before && timed_out) ==> after_check(v, timed_out) == v,
{
}

/// Any success clears the failure count, whatever the state.
pub proof fn lemma_success_clears_failures(v: CircuitView)
    ensures
        after_success(v).failure_count == 0,
{
}

/// Tracks token usage costs across providers. Each counter wraps around at 2^64.
#[derive(Debug)]
pub struct CostTracker {
    embedding_tokens: u64,
    completion_input: u64,
    completion_output: u64,
}

/// Token counts: embedding tokens, completion input tokens, completion output tokens.
pub struct TokenCounts {
    pub embedding: u64,
    pub input: u64,
    pub output: u64,
}

impl View for CostTracker {
    type V = TokenCounts;

    closed spec fn view(&self) -> TokenCounts {
        TokenCounts { embedding: self.embedding_tokens, input: self.completion_input, output: self.completion_output }
    }
}

impl CostTracker {
    /// A tracker with every count at zero.
    pub fn new() -> (t: Self)
        ensures
            t@.embedding == 0,
            t@.input == 0,
            t@.output == 0,
    {
        CostTracker { embedding_tokens: 0, completion_input: 0, completion_output: 0 }
    }

    /// Add embedding tokens.
    pub fn record_embedding(&mut self, tokens: u64)
        ensures
            final(self)@.embedding == old(self)@.embedding.wrapping_add(tokens),
            final(self)@.input == old(self)@.input,
            final(self)@.output == old(self)@.output,
    {
        self.embedding_tokens = self.embedding_tokens.wrapping_add(tokens);
    }

    /// Add completion input and output tokens.
    pub fn record_completion(&mut self, input_tokens: u64, output_tokens: u64)
        ensures
            final(self)@.embedding == old(self)@.embedding,
            final(self)@.input == old(self)@.input.wrapping_add(input_tokens),
            final(self)@.output == old(self)@.output.wrapping_add(output_tokens),
    {
        self.completion_input = self.completion_input.wrapping_add(input_tokens);
        self.completion_output = self.completion_output.wrapping_add(output_tokens);
    }

    /// Embedding tokens recorded.
    pub fn embedding_tokens(&self) -> (n: u64)
        ensures
            n == self@.embedding,
    {
        self.embedding_tokens
    }

    /// Completion input tokens recorded.
    pub fn completion_input(&self) -> (n: u64)
        ensures
            n == self@.input,
    {
        self.completion_input
    }

    /// Completion output tokens recorded.
    pub fn completion_output(&self) -> (n: u64)
        ensures
            n == self@.output,
    {
        self.completion_output
    }

    /// Set every count back to zero.
    pub fn reset(&mut self)
        ensures
            final(self)@.embedding == 0,
            final(self)@.input == 0,
            final(self)@.output == 0,
    {
        self.embedding_tokens = 0;
        self.completion_input = 0;
        self.completion_output = 0;
    }
}

impl Default for CostTracker {
    fn default() -> (t: Self)
        ensures
            t@.embedding == 0,
            t@.input == 0,
            t@.output == 0,
    {
        Self::new()
    }
}

} // verus!
