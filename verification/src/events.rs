//! The kinds of events broadcast to WebSocket clients.

use vstd::prelude::*;
use crate::text::{contains_text, has_text, str_eq};

verus! {

/// The kind of a WebSocket event: every mutation of an entity, and the
/// connection events.
#[derive(Debug, Clone, Copy, PartialEq, Eq, Structural)]
pub enum WsEventKind {
    TrajectoryCreated,
    TrajectoryUpdated,
    TrajectoryDeleted,
    ScopeCreated,
    ScopeUpdated,
    ScopeClosed,
    ArtifactCreated,
    ArtifactUpdated,
    ArtifactDeleted,
    NoteCreated,
    NoteUpdated,
    NoteDeleted,
    TurnCreated,
    AgentRegistered,
    AgentStatusChanged,
    AgentHeartbeat,
    AgentUnregistered,
    LockAcquired,
    LockReleased,
    LockExpired,
    MessageSent,
    MessageDelivered,
    MessageAcknowledged,
    DelegationCreated,
    DelegationAccepted,
    DelegationRejected,
    DelegationCompleted,
    HandoffCreated,
    HandoffAccepted,
    HandoffCompleted,
    ConfigUpdated,
    Connected,
    Disconnected,
    Error,
    SummarizationTriggered,
    EdgeCreated,
    EdgesBatchCreated,
}

/// The name of an event kind, as logged.
pub open spec fn event_type_name(k: WsEventKind) -> Seq<char> {
    match k {
        WsEventKind::TrajectoryCreated => "TrajectoryCreated"@,
        WsEventKind::TrajectoryUpdated => "TrajectoryUpdated"@,
        WsEventKind::TrajectoryDeleted => "TrajectoryDeleted"@,
        WsEventKind::ScopeCreated => "ScopeCreated"@,
        WsEventKind::ScopeUpdated => "ScopeUpdated"@,
        WsEventKind::ScopeClosed => "ScopeClosed"@,
        WsEventKind::ArtifactCreated => "ArtifactCreated"@,
        WsEventKind::ArtifactUpdated => "ArtifactUpdated"@,
        WsEventKind::ArtifactDeleted => "ArtifactDeleted"@,
        WsEventKind::NoteCreated => "NoteCreated"@,
        WsEventKind::NoteUpdated => "NoteUpdated"@,
        WsEventKind::NoteDeleted => "NoteDeleted"@,
        WsEventKind::TurnCreated => "TurnCreated"@,
        WsEventKind::AgentRegistered => "AgentRegistered"@,
        WsEventKind::AgentStatusChanged => "AgentStatusChanged"@,
        WsEventKind::AgentHeartbeat => "AgentHeartbeat"@,
        WsEventKind::AgentUnregistered => "AgentUnregistered"@,
        WsEventKind::LockAcquired => "LockAcquired"@,
        WsEventKind::LockReleased => "LockReleased"@,
        WsEventKind::LockExpired => "LockExpired"@,
        WsEventKind::MessageSent => "MessageSent"@,
        WsEventKind::MessageDelivered => "MessageDelivered"@,
        WsEventKind::MessageAcknowledged => "MessageAcknowledged"@,
        WsEventKind::DelegationCreated => "DelegationCreated"@,
        WsEventKind::DelegationAccepted => "DelegationAccepted"@,
        WsEventKind::DelegationRejected => "DelegationRejected"@,
        WsEventKind::DelegationCompleted => "DelegationCompleted"@,
        WsEventKind::HandoffCreated => "HandoffCreated"@,
        WsEventKind::HandoffAccepted => "HandoffAccepted"@,
        WsEventKind::HandoffCompleted => "HandoffCompleted"@,
        WsEventKind::ConfigUpdated => "ConfigUpdated"@,
        WsEventKind::Connected => "Connected"@,
        WsEventKind::Disconnected => "Disconnected"@,
        WsEventKind::Error => "Error"@,
        WsEventKind::SummarizationTriggered => "SummarizationTriggered"@,
        WsEventKind::EdgeCreated => "EdgeCreated"@,
        WsEventKind::EdgesBatchCreated => "EdgesBatchCreated"@,
    }
}

/// Distinct event kinds have distinct names.
pub proof fn lemma_event_type_names_distinct(a: WsEventKind, b: WsEventKind)
    ensures
        event_type_name(a) == event_type_name(b) ==> a == b,
{
    reveal_strlit("TrajectoryCreated");
    reveal_strlit("TrajectoryUpdated");
    reveal_strlit("TrajectoryDeleted");
    reveal_strlit("ScopeCreated");
    reveal_strlit("ScopeUpdated");
    reveal_strlit("ScopeClosed");
    reveal_strlit("ArtifactCreated");
    reveal_strlit("ArtifactUpdated");
    reveal_strlit("ArtifactDeleted");
    reveal_strlit("NoteCreated");
    reveal_strlit("NoteUpdated");
    reveal_strlit("NoteDeleted");
    reveal_strlit("TurnCreated");
    reveal_strlit("AgentRegistered");
    reveal_strlit("AgentStatusChanged");
    reveal_strlit("AgentHeartbeat");
    reveal_strlit("AgentUnregistered");
    reveal_strlit("LockAcquired");
    reveal_strlit("LockReleased");
    reveal_strlit("LockExpired");
    reveal_strlit("MessageSent");
    reveal_strlit("MessageDelivered");
    reveal_strlit("MessageAcknowledged");
    reveal_strlit("DelegationCreated");
    reveal_strlit("DelegationAccepted");
    reveal_strlit("DelegationRejected");
    reveal_strlit("DelegationCompleted");
    reveal_strlit("HandoffCreated");
    reveal_strlit("HandoffAccepted");
    reveal_strlit("HandoffCompleted");
    reveal_strlit("ConfigUpdated");
    reveal_strlit("Connected");
    reveal_strlit("Disconnected");
    reveal_strlit("Error");
    reveal_strlit("SummarizationTriggered");
    reveal_strlit("EdgeCreated");
    reveal_strlit("EdgesBatchCreated");
    assert("TrajectoryCreated"@.len() == 17 && "TrajectoryCreated"@[0] == 'T' && "TrajectoryCreated"@[10] == 'C');
    assert("TrajectoryUpdated"@.len() == 17 && "TrajectoryUpdated"@[0] == 'T' && "TrajectoryUpdated"@[10] == 'U');
    assert("TrajectoryDeleted"@.len() == 17 && "TrajectoryDeleted"@[0] == 'T' && "TrajectoryDeleted"@[10] == 'D');
    assert("ScopeCreated"@.len() == 12 && "ScopeCreated"@[0] == 'S' && "ScopeCreated"@[5] == 'C');
    assert("ScopeUpdated"@.len() == 12 && "ScopeUpdated"@[0] == 'S' && "ScopeUpdated"@[5] == 'U');
    assert("ScopeClosed"@.len() == 11 && "ScopeClosed"@[0] == 'S');
    assert("ArtifactCreated"@.len() == 15 && "ArtifactCreated"@[0] == 'A' && "ArtifactCreated"@[1] == 'r' && "ArtifactCreated"@[8] == 'C');
    assert("ArtifactUpdated"@.len() == 15 && "ArtifactUpdated"@[0] == 'A' && "ArtifactUpdated"@[1] == 'r' && "ArtifactUpdated"@[8] == 'U');
    assert("ArtifactDeleted"@.len() == 15 && "ArtifactDeleted"@[0] == 'A' && "ArtifactDeleted"@[1] == 'r' && "ArtifactDeleted"@[8] == 'D');
    assert("NoteCreated"@.len() == 11 && "NoteCreated"@[0] == 'N' && "NoteCreated"@[4] == 'C');
    assert("NoteUpdated"@.len() == 11 && "NoteUpdated"@[0] == 'N' && "NoteUpdated"@[4] == 'U');
    assert("NoteDeleted"@.len() == 11 && "NoteDeleted"@[0] == 'N' && "NoteDeleted"@[4] == 'D');
    assert("TurnCreated"@.len() == 11 && "TurnCreated"@[0] == 'T');
    assert("AgentRegistered"@.len() == 15 && "AgentRegistered"@[0] == 'A' && "AgentRegistered"@[1] == 'g');
    assert("AgentStatusChanged"@.len() == 18 && "AgentStatusChanged"@[0] == 'A');
    assert("AgentHeartbeat"@.len() == 14 && "AgentHeartbeat"@[0] == 'A');
    assert("AgentUnregistered"@.len() == 17 && "AgentUnregistered"@[0] == 'A');
    assert("LockAcquired"@.len() == 12 && "LockAcquired"@[0] == 'L' && "LockAcquired"@[4] == 'A');
    assert("LockReleased"@.len() == 12 && "LockReleased"@[0] == 'L' && "LockReleased"@[4] == 'R');
    assert("LockExpired"@.len() == 11 && "LockExpired"@[0] == 'L');
    assert("MessageSent"@.len() == 11 && "MessageSent"@[0] == 'M');
    assert("MessageDelivered"@.len() == 16 && "MessageDelivered"@[0] == 'M');
    assert("MessageAcknowledged"@.len() == 19 && "MessageAcknowledged"@[0] == 'M');
    assert("DelegationCreated"@.len() == 17 && "DelegationCreated"@[0] == 'D');
    assert("DelegationAccepted"@.len() == 18 && "DelegationAccepted"@[0] == 'D' && "DelegationAccepted"@[10] == 'A');
    assert("DelegationRejected"@.len() == 18 && "DelegationRejected"@[0] == 'D' && "DelegationRejected"@[10] == 'R');
    assert("DelegationCompleted"@.len() == 19 && "DelegationCompleted"@[0] == 'D');
    assert("HandoffCreated"@.len() == 14 && "HandoffCreated"@[0] == 'H');
    assert("HandoffAccepted"@.len() == 15 && "HandoffAccepted"@[0] == 'H');
    assert("HandoffCompleted"@.len() == 16 && "HandoffCompleted"@[0] == 'H');
    assert("ConfigUpdated"@.len() == 13);
    assert("Connected"@.len() == 9);
    assert("Disconnected"@.len() == 12 && "Disconnected"@[0] == 'D');
    assert("Error"@.len() == 5);
    assert("SummarizationTriggered"@.len() == 22);
    assert("EdgeCreated"@.len() == 11 && "EdgeCreated"@[0] == 'E');
    assert("EdgesBatchCreated"@.len() == 17 && "EdgesBatchCreated"@[0] == 'E');
}

/// The events that concern one tenant: all but the connection events and
/// configuration updates.
pub open spec fn tenant_specific(k: WsEventKind) -> bool {
    !(k is Connected || k is Disconnected || k is Error || k is ConfigUpdated)
}

impl WsEventKind {
    /// The event type as a string for logging/debugging.
    pub fn event_type(&self) -> (s: &'static str)
        ensures
            s@ == event_type_name(*self),
    {
        match self {
            WsEventKind::TrajectoryCreated => "TrajectoryCreated",
            WsEventKind::TrajectoryUpdated => "TrajectoryUpdated",
            WsEventKind::TrajectoryDeleted => "TrajectoryDeleted",
            WsEventKind::ScopeCreated => "ScopeCreated",
            WsEventKind::ScopeUpdated => "ScopeUpdated",
            WsEventKind::ScopeClosed => "ScopeClosed",
            WsEventKind::ArtifactCreated => "ArtifactCreated",
            WsEventKind::ArtifactUpdated => "ArtifactUpdated",
            WsEventKind::ArtifactDeleted => "ArtifactDeleted",
            WsEventKind::NoteCreated => "NoteCreated",
            WsEventKind::NoteUpdated => "NoteUpdated",
            WsEventKind::NoteDeleted => "NoteDeleted",
            WsEventKind::TurnCreated => "TurnCreated",
            WsEventKind::AgentRegistered => "AgentRegistered",
            WsEventKind::AgentStatusChanged => "AgentStatusChanged",
            WsEventKind::AgentHeartbeat => "AgentHeartbeat",
            WsEventKind::AgentUnregistered => "AgentUnregistered",
            WsEventKind::LockAcquired => "LockAcquired",
            WsEventKind::LockReleased => "LockReleased",
            WsEventKind::LockExpired => "LockExpired",
            WsEventKind::MessageSent => "MessageSent",
            WsEventKind::MessageDelivered => "MessageDelivered",
            WsEventKind::MessageAcknowledged => "MessageAcknowledged",
            WsEventKind::DelegationCreated => "DelegationCreated",
            WsEventKind::DelegationAccepted => "DelegationAccepted",
            WsEventKind::DelegationRejected => "DelegationRejected",
            WsEventKind::DelegationCompleted => "DelegationCompleted",
            WsEventKind::HandoffCreated => "HandoffCreated",
            WsEventKind::HandoffAccepted => "HandoffAccepted",
            WsEventKind::HandoffCompleted => "HandoffCompleted",
            WsEventKind::ConfigUpdated => "ConfigUpdated",
            WsEventKind::Connected => "Connected",
            WsEventKind::Disconnected => "Disconnected",
            WsEventKind::Error => "Error",
            WsEventKind::SummarizationTriggered => "SummarizationTriggered",
            WsEventKind::EdgeCreated => "EdgeCreated",
            WsEventKind::EdgesBatchCreated => "EdgesBatchCreated",
        }
    }

    /// Whether events of this kind are tenant-specific (most are).
    pub fn is_tenant_specific(&self) -> (b: bool)
        ensures
            b == tenant_specific(*self),
    {
        match self {
            WsEventKind::Connected | WsEventKind::Disconnected | WsEventKind::Error
                | WsEventKind::ConfigUpdated => false,
            _ => true,
        }
    }

    /// Whether a subscriber to these event types receives events of this
    /// kind: every kind where it named none, else the kinds it named.
    pub fn is_subscribed(&self, event_types: &Vec<String>) -> (b: bool)
        ensures
            b == (event_types@.len() == 0 || has_text(event_types@, event_type_name(*self))),
    {
        event_types.len() == 0 || contains_text(event_types, self.event_type())
    }
}


/// The kind of an audit event recorded for a change to an entity.
#[derive(Debug, Clone, Copy, PartialEq, Eq, Structural)]
pub enum AuditEventKind {
    TrajectoryCreated,
    ScopeCreated,
    ArtifactCreated,
    NoteCreated,
    TurnCreated,
    AgentRegistered,
    LockAcquired,
    MessageSent,
    DelegationCreated,
    HandoffCreated,
    EdgeCreated,
    TrajectoryUpdated,
    ScopeUpdated,
    ArtifactUpdated,
    NoteUpdated,
    AgentUpdated,
    EdgeUpdated,
    TrajectoryDeleted,
    ArtifactDeleted,
    NoteDeleted,
    AgentUnregistered,
    LockReleased,
    EdgeDeleted,
    Data,
}

/// The audit event kind of creating an entity of the named kind; `Data` for the others.
pub open spec fn created_event_kind_spec(entity: Seq<char>) -> AuditEventKind {
    if entity == "trajectory"@ { AuditEventKind::TrajectoryCreated } else
    if entity == "scope"@ { AuditEventKind::ScopeCreated } else
    if entity == "artifact"@ { AuditEventKind::ArtifactCreated } else
    if entity == "note"@ { AuditEventKind::NoteCreated } else
    if entity == "turn"@ { AuditEventKind::TurnCreated } else
    if entity == "agent"@ { AuditEventKind::AgentRegistered } else
    if entity == "lock"@ { AuditEventKind::LockAcquired } else
    if entity == "message"@ { AuditEventKind::MessageSent } else
    if entity == "delegation"@ { AuditEventKind::DelegationCreated } else
    if entity == "handoff"@ { AuditEventKind::HandoffCreated } else
    if entity == "edge"@ { AuditEventKind::EdgeCreated } else
    { AuditEventKind::Data }
}

/// The audit event kind of updating an entity of the named kind; `Data` for the others.
pub open spec fn updated_event_kind_spec(entity: Seq<char>) -> AuditEventKind {
    if entity == "trajectory"@ { AuditEventKind::TrajectoryUpdated } else
    if entity == "scope"@ { AuditEventKind::ScopeUpdated } else
    if entity == "artifact"@ { AuditEventKind::ArtifactUpdated } else
    if entity == "note"@ { AuditEventKind::NoteUpdated } else
    if entity == "agent"@ { AuditEventKind::AgentUpdated } else
    if entity == "edge"@ { AuditEventKind::EdgeUpdated } else
    { AuditEventKind::Data }
}

/// The audit event kind of deleting an entity of the named kind; `Data` for the others.
pub open spec fn deleted_event_kind_spec(entity: Seq<char>) -> AuditEventKind {
    if entity == "trajectory"@ { AuditEventKind::TrajectoryDeleted } else
    if entity == "artifact"@ { AuditEventKind::ArtifactDeleted } else
    if entity == "note"@ { AuditEventKind::NoteDeleted } else
    if entity == "agent"@ { AuditEventKind::AgentUnregistered } else
    if entity == "lock"@ { AuditEventKind::LockReleased } else
    if entity == "edge"@ { AuditEventKind::EdgeDeleted } else
    { AuditEventKind::Data }
}

/// The audit event kind of creating an entity of the named kind.
pub fn created_event_kind(entity_name: &str) -> (k: AuditEventKind)
    ensures
        k == created_event_kind_spec(entity_name@),
{
    if str_eq(entity_name, "trajectory") {
        AuditEventKind::TrajectoryCreated
    } else if str_eq(entity_name, "scope") {
        AuditEventKind::ScopeCreated
    } else if str_eq(entity_name, "artifact") {
        AuditEventKind::ArtifactCreated
    } else if str_eq(entity_name, "note") {
        AuditEventKind::NoteCreated
    } else if str_eq(entity_name, "turn") {
        AuditEventKind::TurnCreated
    } else if str_eq(entity_name, "agent") {
        AuditEventKind::AgentRegistered
    } else if str_eq(entity_name, "lock") {
        AuditEventKind::LockAcquired
    } else if str_eq(entity_name, "message") {
        AuditEventKind::MessageSent
    } else if str_eq(entity_name, "delegation") {
        AuditEventKind::DelegationCreated
    } else if str_eq(entity_name, "handoff") {
        AuditEventKind::HandoffCreated
    } else if str_eq(entity_name, "edge") {
        AuditEventKind::EdgeCreated
    } else {
        AuditEventKind::Data
    }
}

/// The audit event kind of updating an entity of the named kind.
pub fn updated_event_kind(entity_name: &str) -> (k: AuditEventKind)
    ensures
        k == updated_event_kind_spec(entity_name@),
{
    if str_eq(entity_name, "trajectory") {
        AuditEventKind::TrajectoryUpdated
    } else if str_eq(entity_name, "scope") {
        AuditEventKind::ScopeUpdated
    } else if str_eq(entity_name, "artifact") {
        AuditEventKind::ArtifactUpdated
    } else if str_eq(entity_name, "note") {
        AuditEventKind::NoteUpdated
    } else if str_eq(entity_name, "agent") {
        AuditEventKind::AgentUpdated
    } else if str_eq(entity_name, "edge") {
        AuditEventKind::EdgeUpdated
    } else {
        AuditEventKind::Data
    }
}

/// The audit event kind of deleting an entity of the named kind.
pub fn deleted_event_kind(entity_name: &str) -> (k: AuditEventKind)
    ensures
        k == deleted_event_kind_spec(entity_name@),
{
    if str_eq(entity_name, "trajectory") {
        AuditEventKind::TrajectoryDeleted
    } else if str_eq(entity_name, "artifact") {
        AuditEventKind::ArtifactDeleted
    } else if str_eq(entity_name, "note") {
        AuditEventKind::NoteDeleted
    } else if str_eq(entity_name, "agent") {
        AuditEventKind::AgentUnregistered
    } else if str_eq(entity_name, "lock") {
        AuditEventKind::LockReleased
    } else if str_eq(entity_name, "edge") {
        AuditEventKind::EdgeDeleted
    } else {
        AuditEventKind::Data
    }
}


} // verus!
