//! Delegation of tasks between agents, and its lifecycle.

use vstd::prelude::*;
use crate::ident::{ClockUnavailable, EntityId, Timestamp, CLOCK_RANGE_MILLIS, current_time_millis, new_entity_id};
use crate::text::owned;

verus! {

/// Status of a delegated task.
#[derive(Debug, Clone, Copy, PartialEq, Eq, Hash, Structural)]
pub enum DelegationStatus {
    /// Task is pending acceptance
    Pending,
    /// Task has been accepted
    Accepted,
    /// Task was rejected
    Rejected,
    /// Task is in progress
    InProgress,
    /// Task completed successfully
    Completed,
    /// Task failed
    Failed,
}

/// Result status of a delegation.
#[derive(Debug, Clone, Copy, PartialEq, Eq, Hash, Structural)]
pub enum DelegationResultStatus {
    /// Task completed successfully
    Success,
    /// Task partially completed
    Partial,
    /// Task failed
    Failure,
}

/// Result of a delegated task.
#[derive(Debug, Clone, PartialEq)]
pub struct DelegationResult {
    /// Status of the result
    pub status: DelegationResultStatus,
    /// Artifacts produced by the task
    pub produced_artifacts: Vec<EntityId>,
    /// Notes produced by the task
    pub produced_notes: Vec<EntityId>,
    /// Summary of what was accomplished
    pub summary: String,
    /// Error message (if failed)
    pub error: Option<String>,
}

impl DelegationResult {
    /// Create a successful result.
    pub fn success(summary: &str, artifacts: Vec<EntityId>) -> (r: Self)
        ensures
            r.status == DelegationResultStatus::Success,
            r.produced_artifacts@ == artifacts@,
            r.produced_notes@.len() == 0,
            r.summary@ == summary@,
            r.error is None,
    {
        DelegationResult {
            status: DelegationResultStatus::Success,
            produced_artifacts: artifacts,
            produced_notes: Vec::new(),
            summary: owned(summary),
            error: None,
        }
    }

    /// Create a partial result.
    pub fn partial(summary: &str, artifacts: Vec<EntityId>) -> (r: Self)
        ensures
            r.status == DelegationResultStatus::Partial,
            r.produced_artifacts@ == artifacts@,
            r.produced_notes@.len() == 0,
            r.summary@ == summary@,
            r.error is None,
    {
        DelegationResult {
            status: DelegationResultStatus::Partial,
            produced_artifacts: artifacts,
            produced_notes: Vec::new(),
            summary: owned(summary),
            error: None,
        }
    }

    /// Create a failure result.
    pub fn failure(error: &str) -> (r: Self)
        ensures
            r.status == DelegationResultStatus::Failure,
            r.produced_artifacts@.len() == 0,
            r.produced_notes@.len() == 0,
            r.summary@.len() == 0,
            r.error is Some,
            r.error->0@ == error@,
    {
        DelegationResult {
            status: DelegationResultStatus::Failure,
            produced_artifacts: Vec::new(),
            produced_notes: Vec::new(),
            summary: String::new(),
            error: Some(owned(error)),
        }
    }
}

/// A delegated task between agents.
#[derive(Debug, Clone, PartialEq)]
pub struct DelegatedTask {
    /// Unique identifier for this delegation
    pub delegation_id: EntityId,
    /// Agent delegating the task
    pub delegator_agent_id: EntityId,
    /// Specific agent to delegate to (if targeted)
    pub delegatee_agent_id: Option<EntityId>,
    /// Agent type to delegate to (for broadcast)
    pub delegatee_agent_type: Option<String>,
    /// Description of the task
    pub task_description: String,
    /// Parent trajectory
    pub parent_trajectory_id: EntityId,
    /// Child trajectory opened for the delegated work
    pub child_trajectory_id: Option<EntityId>,
    /// Artifacts shared with the delegatee
    pub shared_artifacts: Vec<EntityId>,
    /// Notes shared with the delegatee
    pub shared_notes: Vec<EntityId>,
    /// Additional context (JSON)
    pub additional_context: Option<String>,
    /// Constraints for the task (JSON)
    pub constraints: String,
    /// Deadline for completion
    pub deadline: Option<Timestamp>,
    /// Current status
    pub status: DelegationStatus,
    /// Result (when completed)
    pub result: Option<DelegationResult>,
    /// When the delegation was created
    pub created_at: Timestamp,
    /// When the delegation was accepted
    pub accepted_at: Option<Timestamp>,
    /// When the delegation was completed
    pub completed_at: Option<Timestamp>,
}

/// The fields that every new delegation has, whoever it targets: pending,
/// no child trajectory, nothing shared, empty constraints object `{}`, no
/// deadline, no result, not yet accepted or completed.
pub open spec fn fresh_delegation(
    t: DelegatedTask,
    delegator_agent_id: EntityId,
    task_description: Seq<char>,
    parent_trajectory_id: EntityId,
) -> bool {
    &&& t.delegator_agent_id == delegator_agent_id
    &&& t.task_description@ == task_description
    &&& t.parent_trajectory_id == parent_trajectory_id
    &&& t.child_trajectory_id is None
    &&& t.shared_artifacts@.len() == 0
    &&& t.shared_notes@.len() == 0
    &&& t.additional_context is None
    &&& t.constraints@ == seq!['{', '}']
    &&& t.deadline is None
    &&& t.status == DelegationStatus::Pending
    &&& t.result is None
    &&& -CLOCK_RANGE_MILLIS <= t.created_at <= CLOCK_RANGE_MILLIS
    &&& t.accepted_at is None
    &&& t.completed_at is None
}

/// The status a delegation takes when it completes with `result`: failed for
/// a failure result, completed otherwise.
pub open spec fn completion_status(result: DelegationResult) -> DelegationStatus {
    if result.status == DelegationResultStatus::Failure {
        DelegationStatus::Failed
    } else {
        DelegationStatus::Completed
    }
}

/// A delegation is overdue at `now` when it has a deadline and `now` is past it.
pub open spec fn overdue_at(t: DelegatedTask, now: Timestamp) -> bool {
    match t.deadline {
        Some(d) => now > d,
        None => false,
    }
}

fn empty_object() -> (s: String)
    ensures
        s@ == seq!['{', '}'],
{
    proof {
        reveal_strlit("{}");
        assert("{}"@ =~= seq!['{', '}']);
    }
    owned("{}")
}

impl DelegatedTask {
    /// Create a new delegation to a specific agent.
    /// Fails where the clock is unavailable.
    pub fn to_agent(
        delegator_agent_id: EntityId,
        delegatee_agent_id: EntityId,
        task_description: &str,
        parent_trajectory_id: EntityId,
    ) -> (r: Result<Self, ClockUnavailable>)
        ensures
            r matches Ok(t) ==> (fresh_delegation(t, delegator_agent_id, task_description@, parent_trajectory_id)),
            r matches Ok(t) ==> (t.delegatee_agent_id == Some(delegatee_agent_id)),
            r matches Ok(t) ==> (t.delegatee_agent_type is None),
    {
        let delegation_id = match new_entity_id() {
            Ok(id) => id,
            Err(e) => return Err(e),
        };
        let created_at = match current_time_millis() {
            Ok(t) => t,
            Err(e) => return Err(e),
        };
        Ok(DelegatedTask {
            delegation_id,
            delegator_agent_id,
            delegatee_agent_id: Some(delegatee_agent_id),
            delegatee_agent_type: None,
            task_description: owned(task_description),
            parent_trajectory_id,
            child_trajectory_id: None,
            shared_artifacts: Vec::new(),
            shared_notes: Vec::new(),
            additional_context: None,
            constraints: empty_object(),
            deadline: None,
            status: DelegationStatus::Pending,
            result: None,
            created_at,
            accepted_at: None,
            completed_at: None,
        })
    }

    /// Create a new delegation to an agent type.
    /// Fails where the clock is unavailable.
    pub fn to_type(
        delegator_agent_id: EntityId,
        delegatee_agent_type: &str,
        task_description: &str,
        parent_trajectory_id: EntityId,
    ) -> (r: Result<Self, ClockUnavailable>)
        ensures
            r matches Ok(t) ==> (fresh_delegation(t, delegator_agent_id, task_description@, parent_trajectory_id)),
            r matches Ok(t) ==> (t.delegatee_agent_id is None),
            r matches Ok(t) ==> (t.delegatee_agent_type is Some),
            r matches Ok(t) ==> (t.delegatee_agent_type->0@ == delegatee_agent_type@),
    {
        let delegation_id = match new_entity_id() {
            Ok(id) => id,
            Err(e) => return Err(e),
        };
        let created_at = match current_time_millis() {
            Ok(t) => t,
            Err(e) => return Err(e),
        };
        Ok(DelegatedTask {
            delegation_id,
            delegator_agent_id,
            delegatee_agent_id: None,
            delegatee_agent_type: Some(owned(delegatee_agent_type)),
            task_description: owned(task_description),
            parent_trajectory_id,
            child_trajectory_id: None,
            shared_artifacts: Vec::new(),
            shared_notes: Vec::new(),
            additional_context: None,
            constraints: empty_object(),
            deadline: None,
            status: DelegationStatus::Pending,
            result: None,
            created_at,
            accepted_at: None,
            completed_at: None,
        })
    }

    /// Set shared artifacts.
    pub fn with_shared_artifacts(self, artifacts: Vec<EntityId>) -> (t: Self)
        ensures
            t == (DelegatedTask { shared_artifacts: artifacts, ..self }),
    {
        DelegatedTask { shared_artifacts: artifacts, ..self }
    }

    /// Set shared notes.
    pub fn with_shared_notes(self, notes: Vec<EntityId>) -> (t: Self)
        ensures
            t == (DelegatedTask { shared_notes: notes, ..self }),
    {
        DelegatedTask { shared_notes: notes, ..self }
    }

    /// Set deadline.
    pub fn with_deadline(self, deadline: Timestamp) -> (t: Self)
        ensures
            t == (DelegatedTask { deadline: Some(deadline), ..self }),
    {
        DelegatedTask { deadline: Some(deadline), ..self }
    }

    /// Set constraints.
    pub fn with_constraints(self, constraints: &str) -> (t: Self)
        ensures
            t.constraints@ == constraints@,
            t == (DelegatedTask { constraints: t.constraints, ..self }),
    {
        DelegatedTask { constraints: owned(constraints), ..self }
    }

    /// Accept the delegation: record the accepting agent and the child
    /// trajectory, and stamp the acceptance time.
    /// Fails where the clock is unavailable.
    pub fn accept(&mut self, delegatee_agent_id: EntityId, child_trajectory_id: EntityId) -> (r: Result<(), ClockUnavailable>)
        ensures
            r is Ok ==> (final(self).delegatee_agent_id == Some(delegatee_agent_id)),
            r is Ok ==> (final(self).child_trajectory_id == Some(child_trajectory_id)),
            r is Ok ==> (final(self).status == DelegationStatus::Accepted),
            r is Ok ==> (final(self).accepted_at is Some),
            r is Ok ==> (-CLOCK_RANGE_MILLIS <= final(self).accepted_at->0 <= CLOCK_RANGE_MILLIS),
            r is Ok ==> (*final(self) == (DelegatedTask {
                delegatee_agent_id: Some(delegatee_agent_id),
                child_trajectory_id: Some(child_trajectory_id),
                status: DelegationStatus::Accepted,
                accepted_at: final(self).accepted_at,
                ..*old(self)
            })),
            r is Err ==> *final(self) == *old(self),
    {
        let now = match current_time_millis() {
            Ok(t) => t,
            Err(e) => return Err(e),
        };
        self.delegatee_agent_id = Some(delegatee_agent_id);
        self.child_trajectory_id = Some(child_trajectory_id);
        self.status = DelegationStatus::Accepted;
        self.accepted_at = Some(now);
        Ok(())
    }

    /// Reject the delegation.
    pub fn reject(&mut self)
        ensures
            *final(self) == (DelegatedTask { status: DelegationStatus::Rejected, ..*old(self) }),
    {
        self.status = DelegationStatus::Rejected;
    }

    /// Start working on the delegation.
    pub fn start(&mut self)
        ensures
            *final(self) == (DelegatedTask { status: DelegationStatus::InProgress, ..*old(self) }),
    {
        self.status = DelegationStatus::InProgress;
    }

    /// Complete the delegation with `result`, stamping the completion time.
    /// Fails where the clock is unavailable.
    pub fn complete(&mut self, result: DelegationResult) -> (r: Result<(), ClockUnavailable>)
        ensures
            r is Ok ==> (final(self).status == completion_status(result)),
            r is Ok ==> (final(self).result == Some(result)),
            r is Ok ==> (final(self).completed_at is Some),
            r is Ok ==> (-CLOCK_RANGE_MILLIS <= final(self).completed_at->0 <= CLOCK_RANGE_MILLIS),
            r is Ok ==> (*final(self) == (DelegatedTask {
                status: completion_status(result),
                result: Some(result),
                completed_at: final(self).completed_at,
                ..*old(self)
            })),
            r is Err ==> *final(self) == *old(self),
    {
        let now = match current_time_millis() {
            Ok(t) => t,
            Err(e) => return Err(e),
        };
        self.status = if result.status == DelegationResultStatus::Failure {
            DelegationStatus::Failed
        } else {
            DelegationStatus::Completed
        };
        self.result = Some(result);
        self.completed_at = Some(now);
        Ok(())
    }

    /// Whether the deadline has passed at time `now`.
    pub fn is_overdue_at(&self, now: Timestamp) -> (b: bool)
        ensures
            b == overdue_at(*self, now),
    {
        match self.deadline {
            Some(d) => now > d,
            None => false,
        }
    }

    /// Check if the deadline has passed by the clock's current time. A
    /// delegation without a deadline is never overdue. Fails where the clock
    /// is unavailable.
    pub fn is_overdue(&self) -> (r: Result<bool, ClockUnavailable>)
        ensures
            r matches Ok(b) ==> exists|now: Timestamp| 0 <= now <= CLOCK_RANGE_MILLIS
                && b == #[trigger] overdue_at(*self, now),
            r matches Ok(b) ==> (self.deadline is None ==> !b),
            r matches Ok(b) ==> (b ==> self.deadline->0 < CLOCK_RANGE_MILLIS),
    {
        let now = match current_time_millis() {
            Ok(t) => t,
            Err(e) => return Err(e),
        };
        let b = self.is_overdue_at(now);
        assert(b == overdue_at(*self, now));
        Ok(b)
    }
}

/// A completed delegation has failed exactly when its result is a failure;
/// any other result leaves it completed.
pub proof fn lemma_completion_outcome(result: DelegationResult)
    ensures
        completion_status(result) == DelegationStatus::Failed <==> result.status == DelegationResultStatus::Failure,
        completion_status(result) == DelegationStatus::Completed <==> result.status != DelegationResultStatus::Failure,
{
}

/// A delegation is overdue exactly when it has a deadline and the time is
/// past it; once overdue it stays overdue at every later time, and one
/// without a deadline never is.
pub proof fn lemma_overdue_after_deadline(t: DelegatedTask, now: Timestamp, later: Timestamp)
    ensures
        overdue_at(t, now) <==> (t.deadline matches Some(d) && now > d),
        overdue_at(t, now) && now <= later ==> overdue_at(t, later),
        t.deadline is None ==> !overdue_at(t, now),
{
}

} // verus!
