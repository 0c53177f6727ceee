//! Conflicts between items written by agents, and their resolution.

use vstd::prelude::*;
use crate::ident::{ClockUnavailable, EntityId, Timestamp, CLOCK_RANGE_MILLIS, current_time_millis, new_entity_id, uuid_text, uuid_to_string};
use crate::text::owned;

verus! {

/// Type of conflict.
#[derive(Debug, Clone, Copy, PartialEq, Eq, Hash, Structural)]
pub enum ConflictType {
    /// Two agents wrote to the same resource concurrently
    ConcurrentWrite,
    /// Two facts contradict each other
    ContradictingFact,
    /// Two decisions are incompatible
    IncompatibleDecision,
    /// Two agents are contending for the same resource
    ResourceContention,
    /// Two agents have conflicting goals
    GoalConflict,
}

/// Status of a conflict.
#[derive(Debug, Clone, Copy, PartialEq, Eq, Hash, Structural)]
pub enum ConflictStatus {
    /// Conflict has been detected
    Detected,
    /// Conflict is being resolved
    Resolving,
    /// Conflict has been resolved
    Resolved,
    /// Conflict has been escalated
    Escalated,
}

/// Strategy for resolving a conflict.
#[derive(Debug, Clone, Copy, PartialEq, Eq, Hash, Structural)]
pub enum ResolutionStrategy {
    /// Last write wins
    LastWriteWins,
    /// First write wins
    FirstWriteWins,
    /// Highest confidence wins
    HighestConfidence,
    /// Merge the conflicting items
    Merge,
    /// Escalate to human or supervisor
    Escalate,
    /// Reject both items
    RejectBoth,
}

/// Record of how a conflict was resolved.
#[derive(Debug, Clone, PartialEq)]
pub struct ConflictResolutionRecord {
    /// Strategy used
    pub strategy: ResolutionStrategy,
    /// Winner (if applicable): "a", "b", or "merged"
    pub winner: Option<String>,
    /// ID of merged result (if applicable)
    pub merged_result_id: Option<EntityId>,
    /// Reason for the resolution
    pub reason: String,
    /// Who resolved it: "automatic" or agent UUID
    pub resolved_by: String,
}

/// The text `automatic`.
pub open spec fn automatic_text() -> Seq<char> {
    seq!['a', 'u', 't', 'o', 'm', 'a', 't', 'i', 'c']
}

/// The winner text of a record: the characters of the given winner, if any.
pub open spec fn winner_matches(recorded: Option<String>, given: Option<&str>) -> bool {
    match given {
        Some(w) => recorded is Some && recorded->0@ == w@,
        None => recorded is None,
    }
}

fn copy_winner(winner: Option<&str>) -> (r: Option<String>)
    ensures
        winner_matches(r, winner),
{
    match winner {
        Some(w) => Some(owned(w)),
        None => None,
    }
}

impl ConflictResolutionRecord {
    /// Create an automatic resolution record.
    pub fn automatic(strategy: ResolutionStrategy, winner: Option<&str>, reason: &str) -> (r: Self)
        ensures
            r.strategy == strategy,
            winner_matches(r.winner, winner),
            r.merged_result_id is None,
            r.reason@ == reason@,
            r.resolved_by@ == automatic_text(),
    {
        proof {
            reveal_strlit("automatic");
            assert("automatic"@ =~= automatic_text());
        }
        ConflictResolutionRecord {
            strategy,
            winner: copy_winner(winner),
            merged_result_id: None,
            reason: owned(reason),
            resolved_by: owned("automatic"),
        }
    }

    /// Create a manual resolution record, resolved by the agent `resolved_by`
    /// (recorded as the text of its UUID).
    pub fn manual(
        strategy: ResolutionStrategy,
        winner: Option<&str>,
        reason: &str,
        resolved_by: EntityId,
    ) -> (r: Self)
        ensures
            r.strategy == strategy,
            winner_matches(r.winner, winner),
            r.merged_result_id is None,
            r.reason@ == reason@,
            r.resolved_by@ == uuid_text(resolved_by),
    {
        ConflictResolutionRecord {
            strategy,
            winner: copy_winner(winner),
            merged_result_id: None,
            reason: owned(reason),
            resolved_by: uuid_to_string(resolved_by),
        }
    }

    /// Set merged result ID.
    pub fn with_merged_result(self, result_id: EntityId) -> (r: Self)
        ensures
            r == (ConflictResolutionRecord { merged_result_id: Some(result_id), ..self }),
    {
        ConflictResolutionRecord { merged_result_id: Some(result_id), ..self }
    }
}

/// A detected conflict between items.
#[derive(Debug, Clone, PartialEq)]
pub struct Conflict {
    /// Unique identifier for this conflict
    pub conflict_id: EntityId,
    /// Type of conflict
    pub conflict_type: ConflictType,
    /// Type of first item
    pub item_a_type: String,
    /// ID of first item
    pub item_a_id: EntityId,
    /// Type of second item
    pub item_b_type: String,
    /// ID of second item
    pub item_b_id: EntityId,
    /// Agent that created first item (if known)
    pub agent_a_id: Option<EntityId>,
    /// Agent that created second item (if known)
    pub agent_b_id: Option<EntityId>,
    /// Related trajectory (if any)
    pub trajectory_id: Option<EntityId>,
    /// Current status
    pub status: ConflictStatus,
    /// Resolution record (when resolved)
    pub resolution: Option<ConflictResolutionRecord>,
    /// When the conflict was detected
    pub detected_at: Timestamp,
    /// When the conflict was resolved
    pub resolved_at: Option<Timestamp>,
}

/// The status a conflict takes when resolved by `record`: escalated when the
/// strategy is to escalate, resolved otherwise.
pub open spec fn resolution_status(record: ConflictResolutionRecord) -> ConflictStatus {
    if record.strategy == ResolutionStrategy::Escalate {
        ConflictStatus::Escalated
    } else {
        ConflictStatus::Resolved
    }
}

impl Conflict {
    /// Create a new conflict, detected now.
    /// Fails where the clock is unavailable.
    pub fn new(
        conflict_type: ConflictType,
        item_a_type: &str,
        item_a_id: EntityId,
        item_b_type: &str,
        item_b_id: EntityId,
    ) -> (r: Result<Self, ClockUnavailable>)
        ensures
            r matches Ok(c) ==> (c.conflict_type == conflict_type),
            r matches Ok(c) ==> (c.item_a_type@ == item_a_type@),
            r matches Ok(c) ==> (c.item_a_id == item_a_id),
            r matches Ok(c) ==> (c.item_b_type@ == item_b_type@),
            r matches Ok(c) ==> (c.item_b_id == item_b_id),
            r matches Ok(c) ==> (c.agent_a_id is None),
            r matches Ok(c) ==> (c.agent_b_id is None),
            r matches Ok(c) ==> (c.trajectory_id is None),
            r matches Ok(c) ==> (c.status == ConflictStatus::Detected),
            r matches Ok(c) ==> (c.resolution is None),
            r matches Ok(c) ==> (-CLOCK_RANGE_MILLIS <= c.detected_at <= CLOCK_RANGE_MILLIS),
            r matches Ok(c) ==> (c.resolved_at is None),
    {
        let conflict_id = match new_entity_id() {
            Ok(id) => id,
            Err(e) => return Err(e),
        };
        let detected_at = match current_time_millis() {
            Ok(t) => t,
            Err(e) => return Err(e),
        };
        Ok(Conflict {
            conflict_id,
            conflict_type,
            item_a_type: owned(item_a_type),
            item_a_id,
            item_b_type: owned(item_b_type),
            item_b_id,
            agent_a_id: None,
            agent_b_id: None,
            trajectory_id: None,
            status: ConflictStatus::Detected,
            resolution: None,
            detected_at,
            resolved_at: None,
        })
    }

    /// Set agents involved.
    pub fn with_agents(self, agent_a: Option<EntityId>, agent_b: Option<EntityId>) -> (c: Self)
        ensures
            c == (Conflict { agent_a_id: agent_a, agent_b_id: agent_b, ..self }),
    {
        Conflict { agent_a_id: agent_a, agent_b_id: agent_b, ..self }
    }

    /// Set trajectory context.
    pub fn with_trajectory(self, trajectory_id: EntityId) -> (c: Self)
        ensures
            c == (Conflict { trajectory_id: Some(trajectory_id), ..self }),
    {
        Conflict { trajectory_id: Some(trajectory_id), ..self }
    }

    /// Start resolving the conflict.
    pub fn start_resolving(&mut self)
        ensures
            *final(self) == (Conflict { status: ConflictStatus::Resolving, ..*old(self) }),
    {
        self.status = ConflictStatus::Resolving;
    }

    /// Resolve the conflict with `resolution`, stamping the resolution time.
    /// Fails where the clock is unavailable.
    pub fn resolve(&mut self, resolution: ConflictResolutionRecord) -> (r: Result<(), ClockUnavailable>)
        ensures
            r is Ok ==> (final(self).status == resolution_status(resolution)),
            r is Ok ==> (final(self).resolution == Some(resolution)),
            r is Ok ==> (final(self).resolved_at is Some),
            r is Ok ==> (-CLOCK_RANGE_MILLIS <= final(self).resolved_at->0 <= CLOCK_RANGE_MILLIS),
            r is Ok ==> (*final(self) == (Conflict {
                status: resolution_status(resolution),
                resolution: Some(resolution),
                resolved_at: final(self).resolved_at,
                ..*old(self)
            })),
            r is Err ==> *final(self) == *old(self),
    {
        let now = match current_time_millis() {
            Ok(t) => t,
            Err(e) => return Err(e),
        };
        self.status = if resolution.strategy == ResolutionStrategy::Escalate {
            ConflictStatus::Escalated
        } else {
            ConflictStatus::Resolved
        };
        self.resolution = Some(resolution);
        self.resolved_at = Some(now);
        Ok(())
    }

    /// Escalate the conflict: it records an automatic escalation with the
    /// given reason and no winner. The resolution time is left as it was.
    pub fn escalate(&mut self, reason: &str)
        ensures
            final(self).status == ConflictStatus::Escalated,
            final(self).resolution is Some,
            final(self).resolution->0.strategy == ResolutionStrategy::Escalate,
            final(self).resolution->0.winner is None,
            final(self).resolution->0.merged_result_id is None,
            final(self).resolution->0.reason@ == reason@,
            final(self).resolution->0.resolved_by@ == automatic_text(),
            *final(self) == (Conflict {
                status: ConflictStatus::Escalated,
                resolution: final(self).resolution,
                ..*old(self)
            }),
    {
        self.status = ConflictStatus::Escalated;
        self.resolution = Some(ConflictResolutionRecord::automatic(
            ResolutionStrategy::Escalate,
            None,
            reason,
        ));
    }
}

/// Resolving with the escalation strategy and escalating end in the same
/// status; every other strategy ends resolved.
pub proof fn lemma_resolution_outcome(record: ConflictResolutionRecord)
    ensures
        resolution_status(record) == ConflictStatus::Escalated <==> record.strategy == ResolutionStrategy::Escalate,
        resolution_status(record) == ConflictStatus::Resolved <==> record.strategy != ResolutionStrategy::Escalate,
{
}

} // verus!
