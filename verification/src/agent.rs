//! Agent identity: the agents of a multi-agent system, their capabilities,
//! memory permissions and delegation targets.

use vstd::prelude::*;
use crate::ident::{ClockUnavailable, EntityId, Timestamp, CLOCK_RANGE_MILLIS, current_time_millis, new_entity_id};
use crate::text::{has_text, contains_text, owned};

verus! {

broadcast use vstd::string::group_string_axioms;

/// Agent status in the system.
#[derive(Debug, Clone, Copy, PartialEq, Eq, Hash, Structural)]
pub enum AgentStatus {
    /// Agent is idle and available for work
    Idle,
    /// Agent is actively working on a task
    Active,
    /// Agent is blocked waiting for a resource
    Blocked,
    /// Agent has failed and needs recovery
    Failed,
}

/// Permission scope for memory access.
#[derive(Debug, Clone, Copy, PartialEq, Eq, Hash, Structural)]
pub enum PermissionScope {
    /// Only own resources
    Own,
    /// Resources belonging to same team
    Team,
    /// All resources (global access)
    Global,
}

/// A single memory permission entry.
#[derive(Debug, Clone, PartialEq)]
pub struct MemoryPermission {
    /// Type of memory (e.g., "artifact", "note", "trajectory")
    pub memory_type: String,
    /// Scope of the permission
    pub scope: PermissionScope,
    /// Optional filter expression (serialized)
    pub filter: Option<String>,
}

/// Memory access configuration for an agent.
#[derive(Debug, Clone, PartialEq)]
pub struct MemoryAccess {
    /// Read permissions
    pub read: Vec<MemoryPermission>,
    /// Write permissions
    pub write: Vec<MemoryPermission>,
}

/// The permission that the default memory access grants for reading and for
/// writing: every memory type (`"*"`), own resources only, no filter.
pub open spec fn is_own_wildcard(p: MemoryPermission) -> bool {
    &&& p.memory_type@ == seq!['*']
    &&& p.scope == PermissionScope::Own
    &&& p.filter is None
}

fn own_wildcard() -> (p: MemoryPermission)
    ensures
        is_own_wildcard(p),
{
    proof {
        reveal_strlit("*");
        assert("*"@ =~= seq!['*']);
    }
    MemoryPermission { memory_type: owned("*"), scope: PermissionScope::Own, filter: None }
}

impl Default for MemoryAccess {
    /// One read and one write permission, both for every memory type, own scope.
    fn default() -> (r: Self)
        ensures
            r.read@.len() == 1,
            is_own_wildcard(r.read@[0]),
            r.write@.len() == 1,
            is_own_wildcard(r.write@[0]),
    {
        let mut read = Vec::new();
        read.push(own_wildcard());
        let mut write = Vec::new();
        write.push(own_wildcard());
        MemoryAccess { read, write }
    }
}

/// An agent in the multi-agent system.
#[derive(Debug, Clone, PartialEq)]
pub struct Agent {
    /// Unique identifier for this agent
    pub agent_id: EntityId,
    /// Type of agent (e.g., "coder", "tester", "planner")
    pub agent_type: String,
    /// Capabilities this agent has
    pub capabilities: Vec<String>,
    /// Memory access permissions
    pub memory_access: MemoryAccess,
    /// Current status
    pub status: AgentStatus,
    /// Current trajectory being worked on
    pub current_trajectory_id: Option<EntityId>,
    /// Current scope being worked on
    pub current_scope_id: Option<EntityId>,
    /// Agent types this agent can delegate to
    pub can_delegate_to: Vec<String>,
    /// Supervisor agent (if any)
    pub reports_to: Option<EntityId>,
    /// When this agent was created
    pub created_at: Timestamp,
    /// Last heartbeat timestamp
    pub last_heartbeat: Timestamp,
}

impl Agent {
    /// Create a new agent: idle, with the default memory access, no current
    /// work, no delegation targets and no supervisor. Its identifier and its
    /// creation time come from the UUID generator and the clock; the last
    /// heartbeat is the creation time. Fails where the clock is unavailable.
    pub fn new(agent_type: &str, capabilities: Vec<String>) -> (r: Result<Self, ClockUnavailable>)
        ensures
            r matches Ok(a) ==> (a.agent_type@ == agent_type@),
            r matches Ok(a) ==> (a.capabilities@ == capabilities@),
            r matches Ok(a) ==> (a.memory_access.read@.len() == 1),
            r matches Ok(a) ==> (is_own_wildcard(a.memory_access.read@[0])),
            r matches Ok(a) ==> (a.memory_access.write@.len() == 1),
            r matches Ok(a) ==> (is_own_wildcard(a.memory_access.write@[0])),
            r matches Ok(a) ==> (a.status == AgentStatus::Idle),
            r matches Ok(a) ==> (a.current_trajectory_id is None),
            r matches Ok(a) ==> (a.current_scope_id is None),
            r matches Ok(a) ==> (a.can_delegate_to@.len() == 0),
            r matches Ok(a) ==> (a.reports_to is None),
            r matches Ok(a) ==> (a.last_heartbeat == a.created_at),
            r matches Ok(a) ==> (0 <= a.created_at <= CLOCK_RANGE_MILLIS),
    {
        let now = match current_time_millis() {
            Ok(t) => t,
            Err(e) => return Err(e),
        };
        let agent_id = match new_entity_id() {
            Ok(id) => id,
            Err(e) => return Err(e),
        };
        Ok(Agent {
            agent_id,
            agent_type: owned(agent_type),
            capabilities,
            memory_access: MemoryAccess::default(),
            status: AgentStatus::Idle,
            current_trajectory_id: None,
            current_scope_id: None,
            can_delegate_to: Vec::new(),
            reports_to: None,
            created_at: now,
            last_heartbeat: now,
        })
    }

    /// Set memory access permissions.
    pub fn with_memory_access(self, access: MemoryAccess) -> (a: Self)
        ensures
            a == (Agent { memory_access: access, ..self }),
    {
        Agent { memory_access: access, ..self }
    }

    /// Set delegation targets.
    pub fn with_delegation_targets(self, targets: Vec<String>) -> (a: Self)
        ensures
            a == (Agent { can_delegate_to: targets, ..self }),
    {
        Agent { can_delegate_to: targets, ..self }
    }

    /// Set supervisor.
    pub fn with_supervisor(self, supervisor_id: EntityId) -> (a: Self)
        ensures
            a == (Agent { reports_to: Some(supervisor_id), ..self }),
    {
        Agent { reports_to: Some(supervisor_id), ..self }
    }

    /// Update the heartbeat timestamp to the clock's current time; nothing
    /// else changes. Where the clock is unavailable nothing changes at all.
    pub fn heartbeat(&mut self) -> (r: Result<(), ClockUnavailable>)
        ensures
            r is Ok ==> *final(self) == (Agent { last_heartbeat: final(self).last_heartbeat, ..*old(self) }),
            r is Ok ==> 0 <= final(self).last_heartbeat <= CLOCK_RANGE_MILLIS,
            r is Err ==> *final(self) == *old(self),
    {
        match current_time_millis() {
            Ok(t) => {
                self.last_heartbeat = t;
                Ok(())
            },
            Err(e) => Err(e),
        }
    }

    /// Check if agent has a specific capability.
    pub fn has_capability(&self, capability: &str) -> (r: bool)
        ensures
            r == has_text(self.capabilities@, capability@),
    {
        contains_text(&self.capabilities, capability)
    }

    /// Check if agent can delegate to a specific agent type.
    pub fn can_delegate_to_type(&self, agent_type: &str) -> (r: bool)
        ensures
            r == has_text(self.can_delegate_to@, agent_type@),
    {
        contains_text(&self.can_delegate_to, agent_type)
    }
}

} // verus!
