use caliber::agent::{Agent, AgentStatus};
use caliber::conflict::{Conflict, ConflictResolutionRecord, ConflictStatus, ConflictType, ResolutionStrategy};
use caliber::delegation::{DelegatedTask, DelegationResult, DelegationStatus};
use caliber::handoff::{AgentHandoff, HandoffReason, HandoffStatus};
use caliber::lock::{compute_lock_key, DistributedLock, LockMode};
use caliber::lock_manager::{AgentError, LockManager};
use caliber::message::{AgentMessage, MessageType};
use caliber::region::MemoryRegionConfig;

fn new_id() -> u128 {
    uuid::Uuid::now_v7().as_u128()
}

#[test]
fn test_agent_new() {
    let agent = Agent::new("coder", vec!["rust".to_string(), "python".to_string()]).unwrap();
    assert_eq!(agent.agent_type, "coder");
    assert_eq!(agent.capabilities.len(), 2);
    assert_eq!(agent.status, AgentStatus::Idle);
    assert!(agent.current_trajectory_id.is_none());
}

#[test]
fn test_agent_has_capability() {
    let agent = Agent::new("coder", vec!["rust".to_string()]).unwrap();
    assert!(agent.has_capability("rust"));
    assert!(!agent.has_capability("python"));
}

#[test]
fn test_agent_can_delegate() {
    let agent = Agent::new("planner", vec![]).unwrap()
        .with_delegation_targets(vec!["coder".to_string(), "tester".to_string()]);
    assert!(agent.can_delegate_to_type("coder"));
    assert!(agent.can_delegate_to_type("tester"));
    assert!(!agent.can_delegate_to_type("planner"));
}

#[test]
fn test_memory_region_private() {
    let owner_id = new_id();
    let other_id = new_id();
    let region = MemoryRegionConfig::private(owner_id).unwrap();
    assert!(region.can_read(owner_id));
    assert!(region.can_write(owner_id));
    assert!(!region.can_read(other_id));
    assert!(!region.can_write(other_id));
}

#[test]
fn test_memory_region_public() {
    let owner_id = new_id();
    let other_id = new_id();
    let region = MemoryRegionConfig::public(owner_id).unwrap();
    assert!(region.can_read(owner_id));
    assert!(region.can_write(owner_id));
    assert!(region.can_read(other_id));
    assert!(!region.can_write(other_id));
}

#[test]
fn test_memory_region_collaborative() {
    let owner_id = new_id();
    let other_id = new_id();
    let region = MemoryRegionConfig::collaborative(owner_id).unwrap();
    assert!(region.can_read(owner_id));
    assert!(region.can_write(owner_id));
    assert!(region.can_read(other_id));
    assert!(region.can_write(other_id));
    assert!(region.require_lock);
}

#[test]
fn team_region_grants_members_after_adding_them() {
    let owner_id = new_id();
    let member = new_id();
    let mut region = MemoryRegionConfig::team(owner_id, new_id()).unwrap();
    assert!(!region.can_read(member));
    region.add_reader(member);
    assert!(region.can_read(member));
    assert!(!region.can_write(member));
    region.add_writer(member);
    assert!(region.can_write(member));
}

#[test]
fn test_distributed_lock_new() {
    let agent_id = new_id();
    let resource_id = new_id();
    let lock = DistributedLock::new("artifact", resource_id, agent_id, 30000, LockMode::Exclusive).unwrap();
    assert_eq!(lock.resource_type, "artifact");
    assert_eq!(lock.resource_id, resource_id);
    assert_eq!(lock.holder_agent_id, agent_id);
    assert_eq!(lock.mode, LockMode::Exclusive);
    assert!(!lock.is_expired().unwrap());
}

#[test]
fn lock_expiry_follows_the_deadline() {
    let lock = DistributedLock::new("artifact", 7, 9, 1000, LockMode::Shared).unwrap();
    assert_eq!(lock.expires_at, lock.acquired_at + 1000);
    assert!(!lock.is_expired_at(lock.expires_at));
    assert!(lock.is_expired_at(lock.expires_at + 1));
}

#[test]
fn lock_key_is_fnv1a_of_type_and_id() {
    // FNV-1a 64 over b"a" followed by 16 zero bytes, reinterpreted as i64.
    let mut h: u64 = 0xcbf29ce484222325;
    for b in [b'a'].iter().chain([0u8; 16].iter()) {
        h ^= *b as u64;
        h = h.wrapping_mul(0x100000001b3);
    }
    assert_eq!(compute_lock_key("a", 0), h as i64);
    let lock = DistributedLock::new("a", 0, 1, 10, LockMode::Exclusive).unwrap();
    assert_eq!(lock.compute_key(), h as i64);
    assert_ne!(compute_lock_key("a", 1), compute_lock_key("a", 0));
}

#[test]
fn test_lock_manager_acquire_release() {
    let mut manager = LockManager::new();
    let agent_id = new_id();
    let resource_id = new_id();
    let lock = manager
        .acquire(agent_id, "artifact", resource_id, LockMode::Exclusive, 30000)
        .expect("lock should be acquired");
    assert!(manager.get(lock.lock_id).is_some());
    let released = manager.release(lock.lock_id).expect("release should succeed");
    assert!(released);
    assert!(manager.get(lock.lock_id).is_none());
}

#[test]
fn test_lock_manager_conflict() {
    let mut manager = LockManager::new();
    let agent1 = new_id();
    let agent2 = new_id();
    let resource_id = new_id();
    let _lock1 = manager
        .acquire(agent1, "artifact", resource_id, LockMode::Exclusive, 30000)
        .expect("first lock");
    let result = manager.acquire(agent2, "artifact", resource_id, LockMode::Exclusive, 30000);
    assert!(result.is_err());
    match result {
        Err(AgentError::LockAcquisitionFailed { resource, holder }) => {
            assert_eq!(holder, agent1);
            assert_eq!(resource, format!("artifact:{}", uuid::Uuid::from_u128(resource_id)));
        }
        Ok(_) => panic!("second exclusive lock must be refused"),
        Err(e) => panic!("unexpected error {:?}", e),
    }
}

#[test]
fn test_lock_manager_cleanup_expired() {
    let mut manager = LockManager::new();
    let agent_id = new_id();
    let resource_id = new_id();
    let _lock = manager
        .acquire(agent_id, "artifact", resource_id, LockMode::Exclusive, 30000)
        .expect("lock");
    let cleaned = manager.cleanup_expired().unwrap();
    assert_eq!(cleaned, 0);
}

#[test]
fn expired_locks_are_cleaned_and_free_the_resource() {
    let mut manager = LockManager::new();
    let resource_id = new_id();
    let lock = manager.acquire_at(1000, new_id(), 1, "artifact", resource_id, LockMode::Exclusive, 100).expect("lock");
    assert_eq!(lock.expires_at, 1100);
    assert!(manager.acquire_at(1050, new_id(), 2, "artifact", resource_id, LockMode::Exclusive, 100).is_err());
    assert_eq!(manager.cleanup_expired_at(1101), 1);
    assert!(manager.get(lock.lock_id).is_none());
    assert!(manager.acquire_at(1102, new_id(), 2, "artifact", resource_id, LockMode::Exclusive, 100).is_ok());
}

#[test]
fn shared_locks_keep_every_holder() {
    let mut manager = LockManager::new();
    let resource_id = new_id();
    let l1 = manager.acquire(1, "artifact", resource_id, LockMode::Shared, 30000).expect("first reader");
    let l2 = manager.acquire(2, "artifact", resource_id, LockMode::Shared, 30000).expect("second reader");
    assert_ne!(l1.lock_id, l2.lock_id);
    assert_eq!(manager.get(l1.lock_id), Some(&l1));
    assert_eq!(manager.get(l2.lock_id), Some(&l2));
    assert!(manager.acquire(3, "artifact", resource_id, LockMode::Exclusive, 30000).is_err());
    assert_eq!(manager.release(l1.lock_id), Ok(true));
    assert!(manager.acquire(3, "artifact", resource_id, LockMode::Exclusive, 30000).is_err());
    assert_eq!(manager.get(l2.lock_id), Some(&l2));
    assert_eq!(manager.release(l2.lock_id), Ok(true));
    assert!(manager.acquire(3, "artifact", resource_id, LockMode::Exclusive, 30000).is_ok());
}

#[test]
fn releasing_an_unknown_lock_reports_false() {
    let mut manager = LockManager::new();
    assert_eq!(manager.release(42), Ok(false));
}

#[test]
fn test_agent_message_to_agent() {
    let from_id = new_id();
    let to_id = new_id();
    let msg = AgentMessage::to_agent(from_id, to_id, MessageType::TaskDelegation, "{}").unwrap();
    assert_eq!(msg.from_agent_id, from_id);
    assert_eq!(msg.to_agent_id, Some(to_id));
    assert!(msg.to_agent_type.is_none());
    assert_eq!(msg.message_type, MessageType::TaskDelegation);
}

#[test]
fn test_agent_message_to_type() {
    let from_id = new_id();
    let msg = AgentMessage::to_type(from_id, "coder", MessageType::TaskDelegation, "{}").unwrap();
    assert_eq!(msg.from_agent_id, from_id);
    assert!(msg.to_agent_id.is_none());
    assert_eq!(msg.to_agent_type, Some("coder".to_string()));
}

#[test]
fn test_agent_message_is_for_agent() {
    let from_id = new_id();
    let to_id = new_id();
    let other_id = new_id();
    let msg = AgentMessage::to_agent(from_id, to_id, MessageType::Heartbeat, "{}").unwrap();
    assert!(msg.is_for_agent(to_id, "any"));
    assert!(!msg.is_for_agent(other_id, "any"));
}

#[test]
fn type_addressed_message_reaches_every_agent_of_that_type() {
    let msg = AgentMessage::to_type(1, "coder", MessageType::Heartbeat, "{}").unwrap();
    assert!(msg.is_for_agent(5, "coder"));
    assert!(!msg.is_for_agent(5, "tester"));
}

#[test]
fn test_delegated_task_lifecycle() {
    let delegator = new_id();
    let delegatee = new_id();
    let trajectory = new_id();
    let child_trajectory = new_id();
    let mut task = DelegatedTask::to_type(delegator, "coder", "Implement feature X", trajectory).unwrap();
    assert_eq!(task.status, DelegationStatus::Pending);
    task.accept(delegatee, child_trajectory).unwrap();
    assert_eq!(task.status, DelegationStatus::Accepted);
    assert_eq!(task.delegatee_agent_id, Some(delegatee));
    task.start();
    assert_eq!(task.status, DelegationStatus::InProgress);
    task.complete(DelegationResult::success("Feature implemented", vec![])).unwrap();
    assert_eq!(task.status, DelegationStatus::Completed);
    assert!(task.result.is_some());
}

#[test]
fn failed_delegation_result_marks_the_task_failed() {
    let mut task = DelegatedTask::to_type(1, "coder", "x", 2).unwrap();
    task.complete(DelegationResult::failure("boom")).unwrap();
    assert_eq!(task.status, DelegationStatus::Failed);
    assert_eq!(task.result.as_ref().and_then(|r| r.error.clone()), Some("boom".to_string()));
}

#[test]
fn test_agent_handoff_lifecycle() {
    let from_agent = new_id();
    let to_agent = new_id();
    let trajectory = new_id();
    let scope = new_id();
    let snapshot = new_id();
    let mut handoff = AgentHandoff::to_type(from_agent, "specialist", trajectory, scope, snapshot, HandoffReason::Specialization).unwrap()
        .with_notes("Need specialized knowledge")
        .with_next_steps(vec!["Review context".to_string()]);
    assert_eq!(handoff.status, HandoffStatus::Initiated);
    handoff.accept(to_agent).unwrap();
    assert_eq!(handoff.status, HandoffStatus::Accepted);
    assert_eq!(handoff.to_agent_id, Some(to_agent));
    handoff.complete().unwrap();
    assert_eq!(handoff.status, HandoffStatus::Completed);
}

#[test]
fn test_conflict_lifecycle() {
    let artifact_a = new_id();
    let artifact_b = new_id();
    let mut conflict = Conflict::new(ConflictType::ContradictingFact, "artifact", artifact_a, "artifact", artifact_b).unwrap();
    assert_eq!(conflict.status, ConflictStatus::Detected);
    conflict.start_resolving();
    assert_eq!(conflict.status, ConflictStatus::Resolving);
    conflict.resolve(ConflictResolutionRecord::automatic(
        ResolutionStrategy::HighestConfidence,
        Some("a"),
        "Artifact A has higher confidence",
    )).unwrap();
    assert_eq!(conflict.status, ConflictStatus::Resolved);
    assert!(conflict.resolution.is_some());
}

#[test]
fn test_conflict_escalation() {
    let artifact_a = new_id();
    let artifact_b = new_id();
    let mut conflict = Conflict::new(ConflictType::GoalConflict, "artifact", artifact_a, "artifact", artifact_b).unwrap();
    conflict.escalate("Cannot automatically resolve goal conflict");
    assert_eq!(conflict.status, ConflictStatus::Escalated);
}

#[test]
fn clock_readings_stamp_agents_and_messages() {
    let mut agent = Agent::new("coder", vec![]).unwrap();
    let created = agent.created_at;
    assert!(created > 0);
    agent.heartbeat().unwrap();
    assert!(agent.last_heartbeat >= created);
    let mut msg = AgentMessage::to_type(1, "coder", MessageType::Heartbeat, "{}").unwrap();
    msg.mark_delivered().unwrap();
    msg.mark_acknowledged().unwrap();
    assert!(msg.delivered_at.is_some() && msg.acknowledged_at.is_some());
    assert_eq!(msg.is_expired(), Ok(false));
}
