//! Memory regions and their access control.

use vstd::prelude::*;
use crate::ident::{ClockUnavailable, EntityId, new_entity_id};
use crate::text::contains_id;

verus! {

/// How concurrent writes to a shared memory region are reconciled.
#[derive(Debug, Clone, Copy, PartialEq, Eq, Hash, Structural)]
pub enum ConflictResolution {
    /// The most recent write replaces earlier ones
    LastWriteWins,
    /// Conflicting writes are escalated for a decision
    Escalate,
}

/// Type of memory region.
#[derive(Debug, Clone, Copy, PartialEq, Eq, Hash, Structural)]
pub enum MemoryRegion {
    /// Only owning agent can access
    Private,
    /// Agents in same team can access
    Team,
    /// Any agent can read, owner can write
    Public,
    /// Any agent can read/write with coordination
    Collaborative,
}

/// Configuration for a memory region.
#[derive(Debug, Clone, PartialEq)]
pub struct MemoryRegionConfig {
    /// Unique identifier for this region
    pub region_id: EntityId,
    /// Type of region
    pub region_type: MemoryRegion,
    /// Agent that owns this region
    pub owner_agent_id: EntityId,
    /// Team this region belongs to (if applicable)
    pub team_id: Option<EntityId>,
    /// Agents with read access
    pub readers: Vec<EntityId>,
    /// Agents with write access
    pub writers: Vec<EntityId>,
    /// Whether writes require a lock
    pub require_lock: bool,
    /// How to resolve conflicts
    pub conflict_resolution: ConflictResolution,
    /// Whether to track versions
    pub version_tracking: bool,
}

/// Whether `agent_id` may read region `r`: the owner of a private region;
/// the owner or a listed reader of a team region; anyone for a public or
/// collaborative region.
pub open spec fn read_allowed(r: MemoryRegionConfig, agent_id: EntityId) -> bool {
    match r.region_type {
        MemoryRegion::Private => agent_id == r.owner_agent_id,
        MemoryRegion::Team => agent_id == r.owner_agent_id || r.readers@.contains(agent_id),
        MemoryRegion::Public => true,
        MemoryRegion::Collaborative => true,
    }
}

/// Whether `agent_id` may write region `r`: the owner of a private or public
/// region; the owner or a listed writer of a team region; anyone for a
/// collaborative region.
pub open spec fn write_allowed(r: MemoryRegionConfig, agent_id: EntityId) -> bool {
    match r.region_type {
        MemoryRegion::Private => agent_id == r.owner_agent_id,
        MemoryRegion::Team => agent_id == r.owner_agent_id || r.writers@.contains(agent_id),
        MemoryRegion::Public => agent_id == r.owner_agent_id,
        MemoryRegion::Collaborative => true,
    }
}

/// The list after adding `x` unless it is already there.
pub open spec fn with_member(v: Seq<EntityId>, x: EntityId) -> Seq<EntityId> {
    if v.contains(x) { v } else { v.push(x) }
}

impl MemoryRegionConfig {
    /// Create a new private region: only the owner reads and writes it.
    /// Fails where the clock is unavailable.
    pub fn private(owner_agent_id: EntityId) -> (res: Result<Self, ClockUnavailable>)
        ensures
            res matches Ok(r) ==> (r.region_type == MemoryRegion::Private),
            res matches Ok(r) ==> (r.owner_agent_id == owner_agent_id),
            res matches Ok(r) ==> (r.team_id is None),
            res matches Ok(r) ==> (r.readers@ == seq![owner_agent_id]),
            res matches Ok(r) ==> (r.writers@ == seq![owner_agent_id]),
            res matches Ok(r) ==> (!r.require_lock),
            res matches Ok(r) ==> (r.conflict_resolution == ConflictResolution::LastWriteWins),
            res matches Ok(r) ==> (!r.version_tracking),
    {
        let region_id = match new_entity_id() {
            Ok(id) => id,
            Err(e) => return Err(e),
        };
        let mut readers = Vec::new();
        readers.push(owner_agent_id);
        let mut writers = Vec::new();
        writers.push(owner_agent_id);
        Ok(MemoryRegionConfig {
            region_id,
            region_type: MemoryRegion::Private,
            owner_agent_id,
            team_id: None,
            readers,
            writers,
            require_lock: false,
            conflict_resolution: ConflictResolution::LastWriteWins,
            version_tracking: false,
        })
    }

    /// Create a new team region with no listed readers or writers.
    /// Fails where the clock is unavailable.
    pub fn team(owner_agent_id: EntityId, team_id: EntityId) -> (res: Result<Self, ClockUnavailable>)
        ensures
            res matches Ok(r) ==> (r.region_type == MemoryRegion::Team),
            res matches Ok(r) ==> (r.owner_agent_id == owner_agent_id),
            res matches Ok(r) ==> (r.team_id == Some(team_id)),
            res matches Ok(r) ==> (r.readers@.len() == 0),
            res matches Ok(r) ==> (r.writers@.len() == 0),
            res matches Ok(r) ==> (!r.require_lock),
            res matches Ok(r) ==> (r.conflict_resolution == ConflictResolution::LastWriteWins),
            res matches Ok(r) ==> (r.version_tracking),
    {
        let region_id = match new_entity_id() {
            Ok(id) => id,
            Err(e) => return Err(e),
        };
        Ok(MemoryRegionConfig {
            region_id,
            region_type: MemoryRegion::Team,
            owner_agent_id,
            team_id: Some(team_id),
            readers: Vec::new(),
            writers: Vec::new(),
            require_lock: false,
            conflict_resolution: ConflictResolution::LastWriteWins,
            version_tracking: true,
        })
    }

    /// Create a new public region: everyone reads, the owner writes.
    /// Fails where the clock is unavailable.
    pub fn public(owner_agent_id: EntityId) -> (res: Result<Self, ClockUnavailable>)
        ensures
            res matches Ok(r) ==> (r.region_type == MemoryRegion::Public),
            res matches Ok(r) ==> (r.owner_agent_id == owner_agent_id),
            res matches Ok(r) ==> (r.team_id is None),
            res matches Ok(r) ==> (r.readers@.len() == 0),
            res matches Ok(r) ==> (r.writers@ == seq![owner_agent_id]),
            res matches Ok(r) ==> (!r.require_lock),
            res matches Ok(r) ==> (r.conflict_resolution == ConflictResolution::LastWriteWins),
            res matches Ok(r) ==> (!r.version_tracking),
    {
        let region_id = match new_entity_id() {
            Ok(id) => id,
            Err(e) => return Err(e),
        };
        let mut writers = Vec::new();
        writers.push(owner_agent_id);
        Ok(MemoryRegionConfig {
            region_id,
            region_type: MemoryRegion::Public,
            owner_agent_id,
            team_id: None,
            readers: Vec::new(),
            writers,
            require_lock: false,
            conflict_resolution: ConflictResolution::LastWriteWins,
            version_tracking: false,
        })
    }

    /// Create a new collaborative region: everyone reads and writes, writes
    /// take a lock and conflicts are escalated.
    /// Fails where the clock is unavailable.
    pub fn collaborative(owner_agent_id: EntityId) -> (res: Result<Self, ClockUnavailable>)
        ensures
            res matches Ok(r) ==> (r.region_type == MemoryRegion::Collaborative),
            res matches Ok(r) ==> (r.owner_agent_id == owner_agent_id),
            res matches Ok(r) ==> (r.team_id is None),
            res matches Ok(r) ==> (r.readers@.len() == 0),
            res matches Ok(r) ==> (r.writers@.len() == 0),
            res matches Ok(r) ==> (r.require_lock),
            res matches Ok(r) ==> (r.conflict_resolution == ConflictResolution::Escalate),
            res matches Ok(r) ==> (r.version_tracking),
    {
        let region_id = match new_entity_id() {
            Ok(id) => id,
            Err(e) => return Err(e),
        };
        Ok(MemoryRegionConfig {
            region_id,
            region_type: MemoryRegion::Collaborative,
            owner_agent_id,
            team_id: None,
            readers: Vec::new(),
            writers: Vec::new(),
            require_lock: true,
            conflict_resolution: ConflictResolution::Escalate,
            version_tracking: true,
        })
    }

    /// Add a reader to the region, unless it is already listed.
    pub fn add_reader(&mut self, agent_id: EntityId)
        ensures
            final(self).readers@ == with_member(old(self).readers@, agent_id),
            *final(self) == (MemoryRegionConfig { readers: final(self).readers, ..*old(self) }),
    {
        if !contains_id(&self.readers, agent_id) {
            self.readers.push(agent_id);
        }
    }

    /// Add a writer to the region, unless it is already listed.
    pub fn add_writer(&mut self, agent_id: EntityId)
        ensures
            final(self).writers@ == with_member(old(self).writers@, agent_id),
            *final(self) == (MemoryRegionConfig { writers: final(self).writers, ..*old(self) }),
    {
        if !contains_id(&self.writers, agent_id) {
            self.writers.push(agent_id);
        }
    }

    /// Check if an agent can read from this region.
    pub fn can_read(&self, agent_id: EntityId) -> (b: bool)
        ensures
            b == read_allowed(*self, agent_id),
            self.region_type == MemoryRegion::Team
                ==> (b <==> (agent_id == self.owner_agent_id || self.readers@.contains(agent_id))),
            self.region_type == MemoryRegion::Private ==> (b <==> agent_id == self.owner_agent_id),
            self.region_type == MemoryRegion::Public || self.region_type == MemoryRegion::Collaborative ==> b,
    {
        match self.region_type {
            MemoryRegion::Private => agent_id == self.owner_agent_id,
            MemoryRegion::Team => agent_id == self.owner_agent_id || contains_id(&self.readers, agent_id),
            MemoryRegion::Public | MemoryRegion::Collaborative => true,
        }
    }

    /// Check if an agent can write to this region.
    pub fn can_write(&self, agent_id: EntityId) -> (b: bool)
        ensures
            b == write_allowed(*self, agent_id),
            self.region_type == MemoryRegion::Team
                ==> (b <==> (agent_id == self.owner_agent_id || self.writers@.contains(agent_id))),
            self.region_type == MemoryRegion::Private || self.region_type == MemoryRegion::Public
                ==> (b <==> agent_id == self.owner_agent_id),
            self.region_type == MemoryRegion::Collaborative ==> b,
    {
        match self.region_type {
            MemoryRegion::Private => agent_id == self.owner_agent_id,
            MemoryRegion::Team => agent_id == self.owner_agent_id || contains_id(&self.writers, agent_id),
            MemoryRegion::Public => agent_id == self.owner_agent_id,
            MemoryRegion::Collaborative => true,
        }
    }
}

/// The owner of a region may always read and write it, whatever its type.
pub proof fn lemma_owner_has_full_access(r: MemoryRegionConfig)
    ensures
        read_allowed(r, r.owner_agent_id),
        write_allowed(r, r.owner_agent_id),
{
}

/// A private region admits nobody but its owner, for reading or writing.
pub proof fn lemma_private_region_is_owner_only(r: MemoryRegionConfig, agent_id: EntityId)
    requires
        r.region_type == MemoryRegion::Private,
        agent_id != r.owner_agent_id,
    ensures
        !read_allowed(r, agent_id),
        !write_allowed(r, agent_id),
{
}

/// Every agent may read a public region, and only the owner may write it.
pub proof fn lemma_public_region_access(r: MemoryRegionConfig, agent_id: EntityId)
    requires
        r.region_type == MemoryRegion::Public,
    ensures
        read_allowed(r, agent_id),
        write_allowed(r, agent_id) <==> agent_id == r.owner_agent_id,
{
}

/// Every agent may read and write a collaborative region.
pub proof fn lemma_collaborative_region_access(r: MemoryRegionConfig, agent_id: EntityId)
    requires
        r.region_type == MemoryRegion::Collaborative,
    ensures
        read_allowed(r, agent_id),
        write_allowed(r, agent_id),
{
}

/// After `add_reader(agent_id)` on a team region, `can_read(agent_id)` holds;
/// after `add_writer(agent_id)`, `can_write(agent_id)` holds. The states are
/// related exactly as the two methods' contracts relate them.
pub proof fn lemma_team_membership_grants_access(
    before: MemoryRegionConfig,
    after_reader: MemoryRegionConfig,
    after_writer: MemoryRegionConfig,
    agent_id: EntityId,
)
    requires
        before.region_type == MemoryRegion::Team,
        after_reader.readers@ == with_member(before.readers@, agent_id),
        after_reader == (MemoryRegionConfig { readers: after_reader.readers, ..before }),
        after_writer.writers@ == with_member(before.writers@, agent_id),
        after_writer == (MemoryRegionConfig { writers: after_writer.writers, ..before }),
    ensures
        read_allowed(after_reader, agent_id),
        write_allowed(after_writer, agent_id),
{
    assert(before.readers@.push(agent_id)[before.readers@.len() as int] == agent_id);
    assert(before.writers@.push(agent_id)[before.writers@.len() as int] == agent_id);
}

/// A team region may be read by its owner and its listed readers and by
/// nobody else, and written by its owner and its listed writers and by
/// nobody else: a writer who is not a reader may not read, and a reader who
/// is not a writer may not write.
pub proof fn lemma_team_region_access(r: MemoryRegionConfig, agent_id: EntityId)
    requires
        r.region_type == MemoryRegion::Team,
    ensures
        read_allowed(r, agent_id) <==> (agent_id == r.owner_agent_id || r.readers@.contains(agent_id)),
        write_allowed(r, agent_id) <==> (agent_id == r.owner_agent_id || r.writers@.contains(agent_id)),
        agent_id != r.owner_agent_id && !r.readers@.contains(agent_id) ==> !read_allowed(r, agent_id),
        agent_id != r.owner_agent_id && !r.writers@.contains(agent_id) ==> !write_allowed(r, agent_id),
{
}

/// On a team region, making an agent a writer does not let it read, and
/// making it a reader does not let it write: the states are related as the
/// contracts of `add_writer` and `add_reader` relate them.
pub proof fn lemma_team_grants_are_separate(
    before: MemoryRegionConfig,
    after_reader: MemoryRegionConfig,
    after_writer: MemoryRegionConfig,
    agent_id: EntityId,
)
    requires
        before.region_type == MemoryRegion::Team,
        agent_id != before.owner_agent_id,
        after_reader.readers@ == with_member(before.readers@, agent_id),
        after_reader == (MemoryRegionConfig { readers: after_reader.readers, ..before }),
        after_writer.writers@ == with_member(before.writers@, agent_id),
        after_writer == (MemoryRegionConfig { writers: after_writer.writers, ..before }),
    ensures
        !before.readers@.contains(agent_id) ==> !read_allowed(after_writer, agent_id),
        !before.writers@.contains(agent_id) ==> !write_allowed(after_reader, agent_id),
{
}

/// Adding the same member twice leaves the list as adding it once.
pub proof fn lemma_add_member_idempotent(v: Seq<EntityId>, agent_id: EntityId)
    ensures
        with_member(with_member(v, agent_id), agent_id) == with_member(v, agent_id),
{
    assert(v.push(agent_id)[v.len() as int] == agent_id);
}

} // verus!
