//! Handoffs of work from one agent to another, and their lifecycle.

use vstd::prelude::*;
use crate::ident::{ClockUnavailable, EntityId, Timestamp, CLOCK_RANGE_MILLIS, current_time_millis, new_entity_id};
use crate::text::owned;

verus! {

/// Status of a handoff.
#[derive(Debug, Clone, Copy, PartialEq, Eq, Hash, Structural)]
pub enum HandoffStatus {
    /// Handoff has been initiated
    Initiated,
    /// Handoff has been accepted
    Accepted,
    /// Handoff has been completed
    Completed,
    /// Handoff was rejected
    Rejected,
}

/// Reason for a handoff.
#[derive(Debug, Clone, Copy, PartialEq, Eq, Hash, Structural)]
pub enum HandoffReason {
    /// Current agent lacks required capability
    CapabilityMismatch,
    /// Load balancing across agents
    LoadBalancing,
    /// Task requires specialized agent
    Specialization,
    /// Escalation to supervisor
    Escalation,
    /// Agent timed out
    Timeout,
    /// Agent failed
    Failure,
    /// Scheduled handoff
    Scheduled,
}

/// A handoff between agents.
#[derive(Debug, Clone, PartialEq)]
pub struct AgentHandoff {
    /// Unique identifier for this handoff
    pub handoff_id: EntityId,
    /// Agent initiating the handoff
    pub from_agent_id: EntityId,
    /// Specific agent to hand off to (if targeted)
    pub to_agent_id: Option<EntityId>,
    /// Agent type to hand off to (for broadcast)
    pub to_agent_type: Option<String>,
    /// Trajectory being handed off
    pub trajectory_id: EntityId,
    /// Scope being handed off
    pub scope_id: EntityId,
    /// Context snapshot ID
    pub context_snapshot_id: EntityId,
    /// Notes for the receiving agent
    pub handoff_notes: String,
    /// Suggested next steps
    pub next_steps: Vec<String>,
    /// Known blockers
    pub blockers: Vec<String>,
    /// Open questions
    pub open_questions: Vec<String>,
    /// Current status
    pub status: HandoffStatus,
    /// When the handoff was initiated
    pub initiated_at: Timestamp,
    /// When the handoff was accepted
    pub accepted_at: Option<Timestamp>,
    /// When the handoff was completed
    pub completed_at: Option<Timestamp>,
    /// Reason for the handoff
    pub reason: HandoffReason,
}

/// The fields that every new handoff has, whoever it targets: initiated,
/// with no notes, steps, blockers or questions, not yet accepted or completed.
pub open spec fn fresh_handoff(
    h: AgentHandoff,
    from_agent_id: EntityId,
    trajectory_id: EntityId,
    scope_id: EntityId,
    context_snapshot_id: EntityId,
    reason: HandoffReason,
) -> bool {
    &&& h.from_agent_id == from_agent_id
    &&& h.trajectory_id == trajectory_id
    &&& h.scope_id == scope_id
    &&& h.context_snapshot_id == context_snapshot_id
    &&& h.handoff_notes@.len() == 0
    &&& h.next_steps@.len() == 0
    &&& h.blockers@.len() == 0
    &&& h.open_questions@.len() == 0
    &&& h.status == HandoffStatus::Initiated
    &&& -CLOCK_RANGE_MILLIS <= h.initiated_at <= CLOCK_RANGE_MILLIS
    &&& h.accepted_at is None
    &&& h.completed_at is None
    &&& h.reason == reason
}

impl AgentHandoff {
    /// Create a new handoff to a specific agent.
    /// Fails where the clock is unavailable.
    pub fn to_agent(
        from_agent_id: EntityId,
        to_agent_id: EntityId,
        trajectory_id: EntityId,
        scope_id: EntityId,
        context_snapshot_id: EntityId,
        reason: HandoffReason,
    ) -> (r: Result<Self, ClockUnavailable>)
        ensures
            r matches Ok(h) ==> (fresh_handoff(h, from_agent_id, trajectory_id, scope_id, context_snapshot_id, reason)),
            r matches Ok(h) ==> (h.to_agent_id == Some(to_agent_id)),
            r matches Ok(h) ==> (h.to_agent_type is None),
    {
        let handoff_id = match new_entity_id() {
            Ok(id) => id,
            Err(e) => return Err(e),
        };
        let initiated_at = match current_time_millis() {
            Ok(t) => t,
            Err(e) => return Err(e),
        };
        Ok(AgentHandoff {
            handoff_id,
            from_agent_id,
            to_agent_id: Some(to_agent_id),
            to_agent_type: None,
            trajectory_id,
            scope_id,
            context_snapshot_id,
            handoff_notes: String::new(),
            next_steps: Vec::new(),
            blockers: Vec::new(),
            open_questions: Vec::new(),
            status: HandoffStatus::Initiated,
            initiated_at,
            accepted_at: None,
            completed_at: None,
            reason,
        })
    }

    /// Create a new handoff to an agent type.
    /// Fails where the clock is unavailable.
    pub fn to_type(
        from_agent_id: EntityId,
        to_agent_type: &str,
        trajectory_id: EntityId,
        scope_id: EntityId,
        context_snapshot_id: EntityId,
        reason: HandoffReason,
    ) -> (r: Result<Self, ClockUnavailable>)
        ensures
            r matches Ok(h) ==> (fresh_handoff(h, from_agent_id, trajectory_id, scope_id, context_snapshot_id, reason)),
            r matches Ok(h) ==> (h.to_agent_id is None),
            r matches Ok(h) ==> (h.to_agent_type is Some),
            r matches Ok(h) ==> (h.to_agent_type->0@ == to_agent_type@),
    {
        let handoff_id = match new_entity_id() {
            Ok(id) => id,
            Err(e) => return Err(e),
        };
        let initiated_at = match current_time_millis() {
            Ok(t) => t,
            Err(e) => return Err(e),
        };
        Ok(AgentHandoff {
            handoff_id,
            from_agent_id,
            to_agent_id: None,
            to_agent_type: Some(owned(to_agent_type)),
            trajectory_id,
            scope_id,
            context_snapshot_id,
            handoff_notes: String::new(),
            next_steps: Vec::new(),
            blockers: Vec::new(),
            open_questions: Vec::new(),
            status: HandoffStatus::Initiated,
            initiated_at,
            accepted_at: None,
            completed_at: None,
            reason,
        })
    }

    /// Set handoff notes.
    pub fn with_notes(self, notes: &str) -> (h: Self)
        ensures
            h.handoff_notes@ == notes@,
            h == (AgentHandoff { handoff_notes: h.handoff_notes, ..self }),
    {
        AgentHandoff { handoff_notes: owned(notes), ..self }
    }

    /// Set next steps.
    pub fn with_next_steps(self, steps: Vec<String>) -> (h: Self)
        ensures
            h == (AgentHandoff { next_steps: steps, ..self }),
    {
        AgentHandoff { next_steps: steps, ..self }
    }

    /// Set blockers.
    pub fn with_blockers(self, blockers: Vec<String>) -> (h: Self)
        ensures
            h == (AgentHandoff { blockers: blockers, ..self }),
    {
        AgentHandoff { blockers, ..self }
    }

    /// Set open questions.
    pub fn with_open_questions(self, questions: Vec<String>) -> (h: Self)
        ensures
            h == (AgentHandoff { open_questions: questions, ..self }),
    {
        AgentHandoff { open_questions: questions, ..self }
    }

    /// Accept the handoff: the accepting agent becomes its target, and the
    /// acceptance time is stamped.
    /// Fails where the clock is unavailable.
    pub fn accept(&mut self, accepting_agent_id: EntityId) -> (r: Result<(), ClockUnavailable>)
        ensures
            r is Ok ==> (final(self).to_agent_id == Some(accepting_agent_id)),
            r is Ok ==> (final(self).status == HandoffStatus::Accepted),
            r is Ok ==> (final(self).accepted_at is Some),
            r is Ok ==> (-CLOCK_RANGE_MILLIS <= final(self).accepted_at->0 <= CLOCK_RANGE_MILLIS),
            r is Ok ==> (*final(self) == (AgentHandoff {
                to_agent_id: Some(accepting_agent_id),
                status: HandoffStatus::Accepted,
                accepted_at: final(self).accepted_at,
                ..*old(self)
            })),
            r is Err ==> *final(self) == *old(self),
    {
        let now = match current_time_millis() {
            Ok(t) => t,
            Err(e) => return Err(e),
        };
        self.to_agent_id = Some(accepting_agent_id);
        self.status = HandoffStatus::Accepted;
        self.accepted_at = Some(now);
        Ok(())
    }

    /// Reject the handoff.
    pub fn reject(&mut self)
        ensures
            *final(self) == (AgentHandoff { status: HandoffStatus::Rejected, ..*old(self) }),
    {
        self.status = HandoffStatus::Rejected;
    }

    /// Complete the handoff, stamping the completion time.
    /// Fails where the clock is unavailable.
    pub fn complete(&mut self) -> (r: Result<(), ClockUnavailable>)
        ensures
            r is Ok ==> (final(self).status == HandoffStatus::Completed),
            r is Ok ==> (final(self).completed_at is Some),
            r is Ok ==> (-CLOCK_RANGE_MILLIS <= final(self).completed_at->0 <= CLOCK_RANGE_MILLIS),
            r is Ok ==> (*final(self) == (AgentHandoff {
                status: HandoffStatus::Completed,
                completed_at: final(self).completed_at,
                ..*old(self)
            })),
            r is Err ==> *final(self) == *old(self),
    {
        let now = match current_time_millis() {
            Ok(t) => t,
            Err(e) => return Err(e),
        };
        self.status = HandoffStatus::Completed;
        self.completed_at = Some(now);
        Ok(())
    }
}

} // verus!
