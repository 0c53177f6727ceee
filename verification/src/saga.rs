//! Cleanup of stuck delegations and handoffs: configuration and the
//! counters kept across cleanup cycles.

use vstd::prelude::*;
use crate::constants::{
    DEFAULT_SAGA_BATCH_SIZE, DEFAULT_SAGA_CHECK_INTERVAL_SECS, DEFAULT_SAGA_DELEGATION_TIMEOUT_SECS,
    DEFAULT_SAGA_HANDOFF_TIMEOUT_SECS, DEFAULT_SAGA_IDEMPOTENCY_CLEANUP_INTERVAL_SECS,
};
use crate::duration::Duration;
use crate::text::{decimal_text, push_str, u64_to_string};

verus! {

/// Configuration for the saga cleanup background task.
#[derive(Debug, Clone)]
pub struct SagaCleanupConfig {
    /// How often to check for stuck sagas (default: 60 seconds)
    pub check_interval: Duration,
    /// Timeout threshold for delegations without explicit timeout (default: 1 hour)
    pub delegation_timeout: Duration,
    /// Timeout threshold for handoffs without explicit timeout (default: 30 minutes)
    pub handoff_timeout: Duration,
    /// Maximum number of stuck sagas to process per check cycle (default: 100)
    pub batch_size: usize,
    /// How often to clean up expired idempotency keys (default: 1 hour)
    pub idempotency_cleanup_interval: Duration,
    /// Whether to log each timed-out saga (default: true)
    pub log_timeouts: bool,
}

impl Default for SagaCleanupConfig {
    fn default() -> (c: Self)
        ensures
            c.check_interval.spec_secs() == DEFAULT_SAGA_CHECK_INTERVAL_SECS,
            c.delegation_timeout.spec_secs() == DEFAULT_SAGA_DELEGATION_TIMEOUT_SECS,
            c.handoff_timeout.spec_secs() == DEFAULT_SAGA_HANDOFF_TIMEOUT_SECS,
            c.batch_size == DEFAULT_SAGA_BATCH_SIZE,
            c.idempotency_cleanup_interval.spec_secs() == DEFAULT_SAGA_IDEMPOTENCY_CLEANUP_INTERVAL_SECS,
            c.log_timeouts,
    {
        SagaCleanupConfig {
            check_interval: Duration::from_secs(DEFAULT_SAGA_CHECK_INTERVAL_SECS),
            delegation_timeout: Duration::from_secs(DEFAULT_SAGA_DELEGATION_TIMEOUT_SECS),
            handoff_timeout: Duration::from_secs(DEFAULT_SAGA_HANDOFF_TIMEOUT_SECS),
            batch_size: DEFAULT_SAGA_BATCH_SIZE,
            idempotency_cleanup_interval: Duration::from_secs(DEFAULT_SAGA_IDEMPOTENCY_CLEANUP_INTERVAL_SECS),
            log_timeouts: true,
        }
    }
}

impl SagaCleanupConfig {
    /// The delegation timeout as an SQL interval text, e.g. `3600 seconds`.
    pub fn delegation_timeout_interval(&self) -> (s: String)
        ensures
            s@ == decimal_text(self.delegation_timeout.spec_secs() as nat) + " seconds"@,
    {
        let mut s = u64_to_string(self.delegation_timeout.as_secs());
        push_str(&mut s, " seconds");
        s
    }

    /// The handoff timeout as an SQL interval text, e.g. `1800 seconds`.
    pub fn handoff_timeout_interval(&self) -> (s: String)
        ensures
            s@ == decimal_text(self.handoff_timeout.spec_secs() as nat) + " seconds"@,
    {
        let mut s = u64_to_string(self.handoff_timeout.as_secs());
        push_str(&mut s, " seconds");
        s
    }

    /// Create a configuration for development/testing with shorter timeouts.
    pub fn development() -> (c: Self)
        ensures
            c.check_interval.spec_secs() == 10,
            c.delegation_timeout.spec_secs() == 60,
            c.handoff_timeout.spec_secs() == 30,
            c.batch_size == 10,
            c.idempotency_cleanup_interval.spec_secs() == 60,
            c.log_timeouts,
    {
        SagaCleanupConfig {
            check_interval: Duration::from_secs(10),
            delegation_timeout: Duration::from_secs(60),
            handoff_timeout: Duration::from_secs(30),
            batch_size: 10,
            idempotency_cleanup_interval: Duration::from_secs(60),
            log_timeouts: true,
        }
    }

    /// Create a configuration for production with longer timeouts.
    pub fn production() -> (c: Self)
        ensures
            c.check_interval.spec_secs() == DEFAULT_SAGA_CHECK_INTERVAL_SECS,
            c.delegation_timeout.spec_secs() == 7200,
            c.handoff_timeout.spec_secs() == 3600,
            c.batch_size == DEFAULT_SAGA_BATCH_SIZE,
            c.idempotency_cleanup_interval.spec_secs() == DEFAULT_SAGA_IDEMPOTENCY_CLEANUP_INTERVAL_SECS,
            c.log_timeouts,
    {
        SagaCleanupConfig {
            check_interval: Duration::from_secs(DEFAULT_SAGA_CHECK_INTERVAL_SECS),
            delegation_timeout: Duration::from_secs(7200),
            handoff_timeout: Duration::from_secs(3600),
            batch_size: DEFAULT_SAGA_BATCH_SIZE,
            idempotency_cleanup_interval: Duration::from_secs(DEFAULT_SAGA_IDEMPOTENCY_CLEANUP_INTERVAL_SECS),
            log_timeouts: true,
        }
    }
}

/// What became of one attempt to time out a stuck saga.
#[derive(Debug, Clone, Copy, PartialEq, Eq, Structural)]
pub enum TimeoutOutcome {
    /// The saga was timed out
    TimedOut,
    /// The saga had already been updated by someone else; not an error
    AlreadyUpdated,
    /// The attempt failed
    Failed,
}

/// Counters for saga cleanup operations. Each counter wraps around at 2^64.
#[derive(Debug, Default, Clone)]
pub struct SagaCleanupMetrics {
    /// Total delegations timed out since startup
    pub delegations_timed_out: u64,
    /// Total handoffs timed out since startup
    pub handoffs_timed_out: u64,
    /// Total idempotency keys cleaned up since startup
    pub idempotency_keys_cleaned: u64,
    /// Total cleanup cycles completed
    pub cleanup_cycles: u64,
    /// Total errors encountered during cleanup
    pub cleanup_errors: u64,
}

/// Snapshot of cleanup metrics at a point in time.
#[derive(Debug, Clone)]
pub struct SagaCleanupSnapshot {
    pub delegations_timed_out: u64,
    pub handoffs_timed_out: u64,
    pub idempotency_keys_cleaned: u64,
    pub cleanup_cycles: u64,
    pub cleanup_errors: u64,
}

impl SagaCleanupMetrics {
    /// Create new metrics instance with every counter at zero.
    pub fn new() -> (m: Self)
        ensures
            m.delegations_timed_out == 0,
            m.handoffs_timed_out == 0,
            m.idempotency_keys_cleaned == 0,
            m.cleanup_cycles == 0,
            m.cleanup_errors == 0,
    {
        SagaCleanupMetrics {
            delegations_timed_out: 0,
            handoffs_timed_out: 0,
            idempotency_keys_cleaned: 0,
            cleanup_cycles: 0,
            cleanup_errors: 0,
        }
    }

    /// Get current snapshot of all metrics.
    pub fn snapshot(&self) -> (s: SagaCleanupSnapshot)
        ensures
            s.delegations_timed_out == self.delegations_timed_out,
            s.handoffs_timed_out == self.handoffs_timed_out,
            s.idempotency_keys_cleaned == self.idempotency_keys_cleaned,
            s.cleanup_cycles == self.cleanup_cycles,
            s.cleanup_errors == self.cleanup_errors,
    {
        SagaCleanupSnapshot {
            delegations_timed_out: self.delegations_timed_out,
            handoffs_timed_out: self.handoffs_timed_out,
            idempotency_keys_cleaned: self.idempotency_keys_cleaned,
            cleanup_cycles: self.cleanup_cycles,
            cleanup_errors: self.cleanup_errors,
        }
    }

    /// Count the start of a cleanup cycle.
    pub fn record_cycle(&mut self)
        ensures
            final(self).cleanup_cycles == old(self).cleanup_cycles.wrapping_add(1),
            final(self).delegations_timed_out == old(self).delegations_timed_out,
            final(self).handoffs_timed_out == old(self).handoffs_timed_out,
            final(self).idempotency_keys_cleaned == old(self).idempotency_keys_cleaned,
            final(self).cleanup_errors == old(self).cleanup_errors,
    {
        self.cleanup_cycles = self.cleanup_cycles.wrapping_add(1);
    }

    /// Count a failure to find stuck sagas or to clean idempotency keys.
    pub fn record_error(&mut self)
        ensures
            final(self).cleanup_errors == old(self).cleanup_errors.wrapping_add(1),
            final(self).delegations_timed_out == old(self).delegations_timed_out,
            final(self).handoffs_timed_out == old(self).handoffs_timed_out,
            final(self).idempotency_keys_cleaned == old(self).idempotency_keys_cleaned,
            final(self).cleanup_cycles == old(self).cleanup_cycles,
    {
        self.cleanup_errors = self.cleanup_errors.wrapping_add(1);
    }

    /// Count the outcome of timing out one stuck delegation. Returns 1 when
    /// the delegation was timed out, 0 otherwise.
    pub fn record_delegation_outcome(&mut self, outcome: TimeoutOutcome) -> (n: u64)
        ensures
            n == (if outcome == TimeoutOutcome::TimedOut { 1u64 } else { 0u64 }),
            final(self).delegations_timed_out == (if outcome == TimeoutOutcome::TimedOut {
                old(self).delegations_timed_out.wrapping_add(1)
            } else {
                old(self).delegations_timed_out
            }),
            final(self).cleanup_errors == (if outcome == TimeoutOutcome::Failed {
                old(self).cleanup_errors.wrapping_add(1)
            } else {
                old(self).cleanup_errors
            }),
            final(self).handoffs_timed_out == old(self).handoffs_timed_out,
            final(self).idempotency_keys_cleaned == old(self).idempotency_keys_cleaned,
            final(self).cleanup_cycles == old(self).cleanup_cycles,
    {
        match outcome {
            TimeoutOutcome::TimedOut => {
                self.delegations_timed_out = self.delegations_timed_out.wrapping_add(1);
                1
            },
            TimeoutOutcome::AlreadyUpdated => 0,
            TimeoutOutcome::Failed => {
                self.cleanup_errors = self.cleanup_errors.wrapping_add(1);
                0
            },
        }
    }

    /// Count the outcome of timing out one stuck handoff. Returns 1 when the
    /// handoff was timed out, 0 otherwise.
    pub fn record_handoff_outcome(&mut self, outcome: TimeoutOutcome) -> (n: u64)
        ensures
            n == (if outcome == TimeoutOutcome::TimedOut { 1u64 } else { 0u64 }),
            final(self).handoffs_timed_out == (if outcome == TimeoutOutcome::TimedOut {
                old(self).handoffs_timed_out.wrapping_add(1)
            } else {
                old(self).handoffs_timed_out
            }),
            final(self).cleanup_errors == (if outcome == TimeoutOutcome::Failed {
                old(self).cleanup_errors.wrapping_add(1)
            } else {
                old(self).cleanup_errors
            }),
            final(self).delegations_timed_out == old(self).delegations_timed_out,
            final(self).idempotency_keys_cleaned == old(self).idempotency_keys_cleaned,
            final(self).cleanup_cycles == old(self).cleanup_cycles,
    {
        match outcome {
            TimeoutOutcome::TimedOut => {
                self.handoffs_timed_out = self.handoffs_timed_out.wrapping_add(1);
                1
            },
            TimeoutOutcome::AlreadyUpdated => 0,
            TimeoutOutcome::Failed => {
                self.cleanup_errors = self.cleanup_errors.wrapping_add(1);
                0
            },
        }
    }

    /// Count the idempotency keys that one cleanup removed. A negative count
    /// from the database is not counted.
    pub fn record_idempotency_cleanup(&mut self, count: i32)
        ensures
            final(self).idempotency_keys_cleaned == (if count > 0 {
                old(self).idempotency_keys_cleaned.wrapping_add(count as u64)
            } else {
                old(self).idempotency_keys_cleaned
            }),
            final(self).delegations_timed_out == old(self).delegations_timed_out,
            final(self).handoffs_timed_out == old(self).handoffs_timed_out,
            final(self).cleanup_cycles == old(self).cleanup_cycles,
            final(self).cleanup_errors == old(self).cleanup_errors,
    {
        if count > 0 {
            self.idempotency_keys_cleaned = self.idempotency_keys_cleaned.wrapping_add(count as u64);
        }
    }
}

} // verus!
