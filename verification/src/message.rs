//! Messages passed between agents.

use vstd::prelude::*;
use crate::ident::{ClockUnavailable, EntityId, Timestamp, CLOCK_RANGE_MILLIS, current_time_millis, new_entity_id};
use crate::text::{owned, str_eq};

verus! {

/// Type of agent message.
#[derive(Debug, Clone, Copy, PartialEq, Eq, Hash, Structural)]
pub enum MessageType {
    /// Task delegation request
    TaskDelegation,
    /// Result of a delegated task
    TaskResult,
    /// Request for context from another agent
    ContextRequest,
    /// Sharing context with another agent
    ContextShare,
    /// Coordination signal (e.g., ready, waiting)
    CoordinationSignal,
    /// Handoff request
    Handoff,
    /// Interrupt signal
    Interrupt,
    /// Heartbeat/keepalive
    Heartbeat,
}

/// Priority level for messages.
#[derive(Debug, Clone, Copy, PartialEq, Eq, Hash, Structural)]
pub enum MessagePriority {
    /// Low priority - can be delayed
    Low,
    /// Normal priority
    Normal,
    /// High priority - should be processed soon
    High,
    /// Critical - must be processed immediately
    Critical,
}

/// A message between agents.
#[derive(Debug, Clone, PartialEq)]
pub struct AgentMessage {
    /// Unique identifier for this message
    pub message_id: EntityId,
    /// Agent sending the message
    pub from_agent_id: EntityId,
    /// Specific agent to receive (if targeted)
    pub to_agent_id: Option<EntityId>,
    /// Agent type to receive (for broadcast)
    pub to_agent_type: Option<String>,
    /// Type of message
    pub message_type: MessageType,
    /// Message payload (JSON serialized)
    pub payload: String,
    /// Related trajectory (if any)
    pub trajectory_id: Option<EntityId>,
    /// Related scope (if any)
    pub scope_id: Option<EntityId>,
    /// Related artifacts (if any)
    pub artifact_ids: Vec<EntityId>,
    /// When the message was created
    pub created_at: Timestamp,
    /// When the message was delivered
    pub delivered_at: Option<Timestamp>,
    /// When the message was acknowledged
    pub acknowledged_at: Option<Timestamp>,
    /// Message priority
    pub priority: MessagePriority,
    /// When the message expires
    pub expires_at: Option<Timestamp>,
}

/// The fields that every newly created message has, whoever it targets.
pub open spec fn fresh_message(
    m: AgentMessage,
    from_agent_id: EntityId,
    message_type: MessageType,
    payload: Seq<char>,
) -> bool {
    &&& m.from_agent_id == from_agent_id
    &&& m.message_type == message_type
    &&& m.payload@ == payload
    &&& m.trajectory_id is None
    &&& m.scope_id is None
    &&& m.artifact_ids@.len() == 0
    &&& -CLOCK_RANGE_MILLIS <= m.created_at <= CLOCK_RANGE_MILLIS
    &&& m.delivered_at is None
    &&& m.acknowledged_at is None
    &&& m.priority == MessagePriority::Normal
    &&& m.expires_at is None
}

/// Whether message `m` is addressed to the agent `agent_id` of type
/// `agent_type`: a message to a specific agent is for that agent only; a
/// message to an agent type is for every agent of that type; a message with
/// neither target is for nobody.
pub open spec fn addressed_to(m: AgentMessage, agent_id: EntityId, agent_type: Seq<char>) -> bool {
    match m.to_agent_id {
        Some(to_id) => to_id == agent_id,
        None => match m.to_agent_type {
            Some(t) => t@ == agent_type,
            None => false,
        },
    }
}

/// A message has expired at `now` when it has an expiry and `now` is past it.
pub open spec fn message_expired_at(m: AgentMessage, now: Timestamp) -> bool {
    match m.expires_at {
        Some(exp) => now > exp,
        None => false,
    }
}

impl AgentMessage {
    /// Create a new message to a specific agent.
    /// Fails where the clock is unavailable.
    pub fn to_agent(
        from_agent_id: EntityId,
        to_agent_id: EntityId,
        message_type: MessageType,
        payload: &str,
    ) -> (r: Result<Self, ClockUnavailable>)
        ensures
            r matches Ok(m) ==> (fresh_message(m, from_agent_id, message_type, payload@)),
            r matches Ok(m) ==> (m.to_agent_id == Some(to_agent_id)),
            r matches Ok(m) ==> (m.to_agent_type is None),
    {
        let message_id = match new_entity_id() {
            Ok(id) => id,
            Err(e) => return Err(e),
        };
        let created_at = match current_time_millis() {
            Ok(t) => t,
            Err(e) => return Err(e),
        };
        Ok(AgentMessage {
            message_id,
            from_agent_id,
            to_agent_id: Some(to_agent_id),
            to_agent_type: None,
            message_type,
            payload: owned(payload),
            trajectory_id: None,
            scope_id: None,
            artifact_ids: Vec::new(),
            created_at,
            delivered_at: None,
            acknowledged_at: None,
            priority: MessagePriority::Normal,
            expires_at: None,
        })
    }

    /// Create a new broadcast message to an agent type.
    /// Fails where the clock is unavailable.
    pub fn to_type(
        from_agent_id: EntityId,
        to_agent_type: &str,
        message_type: MessageType,
        payload: &str,
    ) -> (r: Result<Self, ClockUnavailable>)
        ensures
            r matches Ok(m) ==> (fresh_message(m, from_agent_id, message_type, payload@)),
            r matches Ok(m) ==> (m.to_agent_id is None),
            r matches Ok(m) ==> (m.to_agent_type is Some),
            r matches Ok(m) ==> (m.to_agent_type->0@ == to_agent_type@),
    {
        let message_id = match new_entity_id() {
            Ok(id) => id,
            Err(e) => return Err(e),
        };
        let created_at = match current_time_millis() {
            Ok(t) => t,
            Err(e) => return Err(e),
        };
        Ok(AgentMessage {
            message_id,
            from_agent_id,
            to_agent_id: None,
            to_agent_type: Some(owned(to_agent_type)),
            message_type,
            payload: owned(payload),
            trajectory_id: None,
            scope_id: None,
            artifact_ids: Vec::new(),
            created_at,
            delivered_at: None,
            acknowledged_at: None,
            priority: MessagePriority::Normal,
            expires_at: None,
        })
    }

    /// Set trajectory context.
    pub fn with_trajectory(self, trajectory_id: EntityId) -> (m: Self)
        ensures
            m == (AgentMessage { trajectory_id: Some(trajectory_id), ..self }),
    {
        AgentMessage { trajectory_id: Some(trajectory_id), ..self }
    }

    /// Set scope context.
    pub fn with_scope(self, scope_id: EntityId) -> (m: Self)
        ensures
            m == (AgentMessage { scope_id: Some(scope_id), ..self }),
    {
        AgentMessage { scope_id: Some(scope_id), ..self }
    }

    /// Set related artifacts.
    pub fn with_artifacts(self, artifact_ids: Vec<EntityId>) -> (m: Self)
        ensures
            m == (AgentMessage { artifact_ids: artifact_ids, ..self }),
    {
        AgentMessage { artifact_ids, ..self }
    }

    /// Set priority.
    pub fn with_priority(self, priority: MessagePriority) -> (m: Self)
        ensures
            m == (AgentMessage { priority: priority, ..self }),
    {
        AgentMessage { priority, ..self }
    }

    /// Set expiration.
    pub fn with_expiration(self, expires_at: Timestamp) -> (m: Self)
        ensures
            m == (AgentMessage { expires_at: Some(expires_at), ..self }),
    {
        AgentMessage { expires_at: Some(expires_at), ..self }
    }

    /// Mark as delivered at the clock's current time; where the clock is
    /// unavailable nothing changes.
    pub fn mark_delivered(&mut self) -> (r: Result<(), ClockUnavailable>)
        ensures
            r is Ok ==> (final(self).delivered_at is Some),
            r is Ok ==> (-CLOCK_RANGE_MILLIS <= final(self).delivered_at->0 <= CLOCK_RANGE_MILLIS),
            r is Ok ==> (*final(self) == (AgentMessage { delivered_at: final(self).delivered_at, ..*old(self) })),
            r is Err ==> *final(self) == *old(self),
    {
        match current_time_millis() {
            Ok(t) => {
                self.delivered_at = Some(t);
                Ok(())
            },
            Err(e) => Err(e),
        }
    }

    /// Mark as acknowledged at the clock's current time; where the clock is
    /// unavailable nothing changes.
    pub fn mark_acknowledged(&mut self) -> (r: Result<(), ClockUnavailable>)
        ensures
            r is Ok ==> (final(self).acknowledged_at is Some),
            r is Ok ==> (-CLOCK_RANGE_MILLIS <= final(self).acknowledged_at->0 <= CLOCK_RANGE_MILLIS),
            r is Ok ==> (*final(self) == (AgentMessage { acknowledged_at: final(self).acknowledged_at, ..*old(self) })),
            r is Err ==> *final(self) == *old(self),
    {
        match current_time_millis() {
            Ok(t) => {
                self.acknowledged_at = Some(t);
                Ok(())
            },
            Err(e) => Err(e),
        }
    }

    /// Whether the message has expired at time `now`.
    pub fn is_expired_at(&self, now: Timestamp) -> (b: bool)
        ensures
            b == message_expired_at(*self, now),
    {
        match self.expires_at {
            Some(exp) => now > exp,
            None => false,
        }
    }

    /// Check if message has expired by the clock's current time. A message
    /// without an expiry never expires. Fails where the clock is unavailable.
    pub fn is_expired(&self) -> (r: Result<bool, ClockUnavailable>)
        ensures
            r matches Ok(b) ==> exists|now: Timestamp| 0 <= now <= CLOCK_RANGE_MILLIS
                && b == #[trigger] message_expired_at(*self, now),
            r matches Ok(b) ==> (self.expires_at is None ==> !b),
            r matches Ok(b) ==> (b ==> self.expires_at->0 < CLOCK_RANGE_MILLIS),
    {
        let now = match current_time_millis() {
            Ok(t) => t,
            Err(e) => return Err(e),
        };
        let b = self.is_expired_at(now);
        assert(b == message_expired_at(*self, now));
        Ok(b)
    }

    /// Check if message is for a specific agent.
    pub fn is_for_agent(&self, agent_id: EntityId, agent_type: &str) -> (b: bool)
        ensures
            b == addressed_to(*self, agent_id, agent_type@),
    {
        match self.to_agent_id {
            Some(to_id) => to_id == agent_id,
            None => match &self.to_agent_type {
                Some(to_type) => str_eq(to_type.as_str(), agent_type),
                None => false,
            },
        }
    }
}

/// A message addressed to a specific agent is for that agent, whatever type
/// the agent claims, and for no other agent.
pub proof fn lemma_direct_message_addressing(m: AgentMessage, agent_id: EntityId, agent_type: Seq<char>)
    requires
        m.to_agent_id is Some,
    ensures
        addressed_to(m, agent_id, agent_type) <==> agent_id == m.to_agent_id->0,
{
}

/// A message addressed to an agent type (and to no specific agent) is for
/// every agent of that type, and for no agent of another type.
pub proof fn lemma_type_message_addressing(m: AgentMessage, agent_id: EntityId, agent_type: Seq<char>)
    requires
        m.to_agent_id is None,
        m.to_agent_type is Some,
    ensures
        addressed_to(m, agent_id, agent_type) <==> agent_type == m.to_agent_type->0@,
{
}

} // verus!
