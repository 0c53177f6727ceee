//! An in-memory lock manager: locks kept by identifier, any number of live
//! shared locks on a resource, and an exclusive lock refusing any other
//! acquisition of its resource while it is live.

use vstd::prelude::*;
use std::collections::HashMap;
use vstd::std_specs::iter::IteratorSpec;
use crate::ident::{ClockUnavailable, EntityId, Timestamp, CLOCK_RANGE_MILLIS, current_time_millis, new_entity_id, uuid_text, uuid_to_string};
use crate::lock::{DistributedLock, LockMode, MAX_LOCK_SPAN_MILLIS, lock_expired_at, lock_key, compute_lock_key};
use crate::text::{owned, push_str};

verus! {

broadcast use vstd::std_specs::hash::group_hash_axioms;

/// Errors of the agent coordination primitives.
#[derive(Debug, Clone, PartialEq)]
pub enum AgentError {
    /// A lock could not be acquired because another live lock holds the resource.
    LockAcquisitionFailed {
        /// The resource, as `type:uuid`
        resource: String,
        /// The agent holding the conflicting lock
        holder: EntityId,
    },
    /// The clock could not give a usable reading for the new lock.
    ClockUnavailable,
}

/// The text naming a resource in errors: its type, a colon, and its UUID.
pub open spec fn resource_text(resource_type: Seq<char>, resource_id: EntityId) -> Seq<char> {
    resource_type + seq![':'] + uuid_text(resource_id)
}

/// The advisory-lock key of the resource a lock holds.
pub open spec fn key_of(lock: DistributedLock) -> i64 {
    lock_key(lock.resource_type@, lock.resource_id)
}

/// Whether `lock` stands in the way of acquiring the resource with key `key`
/// in `mode` at time `now`: it is on that resource, still live, and it or
/// the request is exclusive.
pub open spec fn blocks(lock: DistributedLock, key: i64, mode: LockMode, now: Timestamp) -> bool {
    &&& key_of(lock) == key
    &&& !lock_expired_at(lock, now)
    &&& (lock.mode == LockMode::Exclusive || mode == LockMode::Exclusive)
}

/// Whether acquiring the resource with key `key` in `mode` is refused at
/// time `now`: some held lock blocks it.
pub open spec fn acquire_refused(locks: Map<EntityId, DistributedLock>, key: i64, mode: LockMode, now: Timestamp) -> bool {
    exists|id: EntityId| locks.contains_key(id) && #[trigger] blocks(locks[id], key, mode, now)
}

/// The locks of `locks` that are still live at `now`.
pub open spec fn live_locks(locks: Map<EntityId, DistributedLock>, now: Timestamp) -> Map<EntityId, DistributedLock> {
    locks.restrict(locks.dom().filter(|id: EntityId| !lock_expired_at(locks[id], now)))
}

/// In-memory lock manager for testing and non-Postgres environments. Every
/// held lock is kept under its own identifier, so several shared holders of
/// one resource are all kept.
#[derive(Debug)]
pub struct LockManager {
    locks: HashMap<EntityId, DistributedLock>,
}

impl View for LockManager {
    type V = Map<EntityId, DistributedLock>;

    /// The locks held, by lock identifier.
    closed spec fn view(&self) -> Map<EntityId, DistributedLock> {
        self.locks@
    }
}

fn resource_name(resource_type: &str, resource_id: EntityId) -> (s: String)
    ensures
        s@ == resource_text(resource_type@, resource_id),
{
    proof {
        reveal_strlit(":");
        assert(":"@ =~= seq![':']);
    }
    let mut s = owned(resource_type);
    push_str(&mut s, ":");
    let id_text = uuid_to_string(resource_id);
    push_str(&mut s, id_text.as_str());
    s
}

impl LockManager {
    /// Every lock is held under its own identifier.
    #[verifier::type_invariant]
    spec fn inv(self) -> bool {
        forall|id: EntityId| #[trigger] self.locks@.contains_key(id) ==> self.locks@[id].lock_id == id
    }

    /// Create a new lock manager holding no locks.
    pub fn new() -> (m: Self)
        ensures
            m@ == Map::<EntityId, DistributedLock>::empty(),
    {
        LockManager { locks: HashMap::new() }
    }

    /// The identifiers of the locks held.
    fn keys(&self) -> (v: Vec<EntityId>)
        ensures
            forall|k: EntityId| v@.contains(k) <==> self@.contains_key(k),
            v@.len() == self@.len(),
    {
        let mut v: Vec<EntityId> = Vec::new();
        for k in it: self.locks.keys()
            invariant
                v@ == it.seq().take(it.index() as int).map_values(|x: &EntityId| *x),
                it.seq() == vstd::std_specs::hash::spec_keys_iter(&self.locks).remaining(),
        {
            v.push(*k);
        }
        proof {
            let ks = vstd::std_specs::hash::spec_keys_iter(&self.locks).remaining();
            assert(ks.unref().to_set() == self.locks@.dom());
            assert(v@ =~= ks.map_values(|x: &EntityId| *x));
            assert forall|k: EntityId| v@.contains(k) <==> self@.contains_key(k) by {
                if v@.contains(k) {
                    let i = choose|i: int| 0 <= i < v@.len() && v@[i] == k;
                    assert(ks.unref()[i] == k);
                    assert(ks.unref().to_set().contains(k));
                }
                if self@.contains_key(k) {
                    assert(ks.unref().to_set().contains(k));
                    let i = choose|i: int| 0 <= i < ks.unref().len() && ks.unref()[i] == k;
                    assert(v@[i] == k);
                }
            }
        }
        v
    }

    /// A held lock that blocks acquiring the resource with key `key` in
    /// `mode` at `now`, if there is one.
    fn blocker(&self, key: i64, mode: LockMode, now: Timestamp) -> (r: Option<EntityId>)
        ensures
            match r {
                Some(id) => self@.contains_key(id) && blocks(self@[id], key, mode, now),
                None => !acquire_refused(self@, key, mode, now),
            },
    {
        let ids = self.keys();
        let mut i: usize = 0;
        while i < ids.len()
            invariant
                i <= ids.len(),
                forall|k: EntityId| ids@.contains(k) <==> self@.contains_key(k),
                forall|j: int| 0 <= j < i ==> !blocks(#[trigger] self@[ids@[j]], key, mode, now),
            decreases ids.len() - i,
        {
            let id = ids[i];
            assert(ids@.contains(id));
            match self.locks.get(&id) {
                Some(l) => {
                    if l.compute_key() == key && !l.is_expired_at(now)
                        && (l.mode == LockMode::Exclusive || mode == LockMode::Exclusive) {
                        return Some(id);
                    }
                },
                None => {},
            }
            i = i + 1;
        }
        proof {
            assert forall|id: EntityId| self@.contains_key(id) implies !#[trigger] blocks(self@[id], key, mode, now) by {
                assert(ids@.contains(id));
                let j = choose|j: int| 0 <= j < ids@.len() && ids@[j] == id;
                assert(!blocks(self@[ids@[j]], key, mode, now));
            }
        }
        None
    }

    /// Try to acquire a lock at time `now`, with identifier `lock_id` for the
    /// new lock. It is refused, and nothing changes, when a live lock on the
    /// same resource exists and either lock is exclusive; otherwise the new
    /// lock, held by `agent_id` and expiring `timeout_ms` after `now`, is kept
    /// under its identifier beside the locks already held.
    pub fn acquire_at(
        &mut self,
        now: Timestamp,
        lock_id: EntityId,
        agent_id: EntityId,
        resource_type: &str,
        resource_id: EntityId,
        mode: LockMode,
        timeout_ms: i64,
    ) -> (r: Result<DistributedLock, AgentError>)
        requires
            -CLOCK_RANGE_MILLIS <= now <= CLOCK_RANGE_MILLIS,
            -MAX_LOCK_SPAN_MILLIS <= timeout_ms <= MAX_LOCK_SPAN_MILLIS,
        ensures
            ({
                let key = lock_key(resource_type@, resource_id);
                if acquire_refused(old(self)@, key, mode, now) {
                    &&& final(self)@ == old(self)@
                    &&& r matches Err(AgentError::LockAcquisitionFailed { resource, holder })
                    &&& resource@ == resource_text(resource_type@, resource_id)
                    &&& exists|id: EntityId| old(self)@.contains_key(id) && #[trigger] blocks(old(self)@[id], key, mode, now)
                        && holder == old(self)@[id].holder_agent_id
                } else {
                    &&& r is Ok
                    &&& r->Ok_0.lock_id == lock_id
                    &&& r->Ok_0.resource_type@ == resource_type@
                    &&& r->Ok_0.resource_id == resource_id
                    &&& r->Ok_0.holder_agent_id == agent_id
                    &&& r->Ok_0.acquired_at == now
                    &&& r->Ok_0.expires_at == now + timeout_ms
                    &&& r->Ok_0.mode == mode
                    &&& final(self)@ == old(self)@.insert(lock_id, r->Ok_0)
                }
            }),
    {
        proof { use_type_invariant(&*self); }
        let key = compute_lock_key(resource_type, resource_id);
        match self.blocker(key, mode, now) {
            Some(id) => {
                let holder = match self.locks.get(&id) {
                    Some(l) => l.holder_agent_id,
                    None => 0,
                };
                return Err(AgentError::LockAcquisitionFailed {
                    resource: resource_name(resource_type, resource_id),
                    holder,
                });
            },
            None => {},
        }
        let lock = DistributedLock {
            lock_id,
            resource_type: owned(resource_type),
            resource_id,
            holder_agent_id: agent_id,
            acquired_at: now,
            expires_at: now + timeout_ms,
            mode,
        };
        let mut locks: HashMap<EntityId, DistributedLock> = HashMap::new();
        std::mem::swap(&mut locks, &mut self.locks);
        locks.insert(lock_id, lock.clone());
        self.locks = locks;
        Ok(lock)
    }

    /// Try to acquire a lock at the clock's current time, under a fresh lock
    /// identifier; see `acquire_at`. Where the clock is unavailable nothing
    /// changes.
    pub fn acquire(
        &mut self,
        agent_id: EntityId,
        resource_type: &str,
        resource_id: EntityId,
        mode: LockMode,
        timeout_ms: i64,
    ) -> (r: Result<DistributedLock, AgentError>)
        requires
            -MAX_LOCK_SPAN_MILLIS <= timeout_ms <= MAX_LOCK_SPAN_MILLIS,
        ensures
            ({
                let key = lock_key(resource_type@, resource_id);
                match r {
                    Err(AgentError::LockAcquisitionFailed { resource, holder }) => {
                        &&& final(self)@ == old(self)@
                        &&& resource@ == resource_text(resource_type@, resource_id)
                        &&& exists|now: Timestamp, id: EntityId| 0 <= now <= CLOCK_RANGE_MILLIS
                            && old(self)@.contains_key(id) && #[trigger] blocks(old(self)@[id], key, mode, now)
                            && holder == old(self)@[id].holder_agent_id
                    },
                    Ok(lock) => {
                        &&& lock.resource_type@ == resource_type@
                        &&& lock.resource_id == resource_id
                        &&& lock.holder_agent_id == agent_id
                        &&& 0 <= lock.acquired_at <= CLOCK_RANGE_MILLIS
                        &&& lock.expires_at == lock.acquired_at + timeout_ms
                        &&& lock.mode == mode
                        &&& final(self)@ == old(self)@.insert(lock.lock_id, lock)
                        &&& !acquire_refused(old(self)@, key, mode, lock.acquired_at)
                    },
                    Err(AgentError::ClockUnavailable) => final(self)@ == old(self)@,
                }
            }),
    {
        let now = match current_time_millis() {
            Ok(t) => t,
            Err(_) => return Err(AgentError::ClockUnavailable),
        };
        let lock_id = match new_entity_id() {
            Ok(id) => id,
            Err(_) => return Err(AgentError::ClockUnavailable),
        };
        self.acquire_at(now, lock_id, agent_id, resource_type, resource_id, mode, timeout_ms)
    }

    /// Release the lock with identifier `lock_id`. Returns whether such a
    /// lock was held; every other lock stays.
    pub fn release(&mut self, lock_id: EntityId) -> (r: Result<bool, AgentError>)
        ensures
            r == Ok::<bool, AgentError>(old(self)@.contains_key(lock_id)),
            final(self)@ == old(self)@.remove(lock_id),
    {
        proof { use_type_invariant(&*self); }
        let mut locks: HashMap<EntityId, DistributedLock> = HashMap::new();
        std::mem::swap(&mut locks, &mut self.locks);
        let found = match locks.remove(&lock_id) {
            Some(_) => true,
            None => false,
        };
        self.locks = locks;
        Ok(found)
    }

    /// Get a lock by ID.
    pub fn get(&self, lock_id: EntityId) -> (r: Option<&DistributedLock>)
        ensures
            match r {
                Some(l) => self@.contains_key(lock_id) && *l == self@[lock_id] && l.lock_id == lock_id,
                None => !self@.contains_key(lock_id),
            },
    {
        proof { use_type_invariant(self); }
        self.locks.get(&lock_id)
    }

    /// Remove the locks expired at `now`, returning how many were removed.
    pub fn cleanup_expired_at(&mut self, now: Timestamp) -> (n: usize)
        ensures
            final(self)@ == live_locks(old(self)@, now),
            n == old(self)@.len() - final(self)@.len(),
    {
        proof { use_type_invariant(&*self); }
        let keys = self.keys();
        let ghost start = self@;
        let mut locks: HashMap<EntityId, DistributedLock> = HashMap::new();
        std::mem::swap(&mut locks, &mut self.locks);
        let mut removed: usize = 0;
        let mut i: usize = 0;
        while i < keys.len()
            invariant
                i <= keys.len(),
                start.dom().finite(),
                keys@.len() == start.len(),
                forall|k: EntityId| keys@.contains(k) <==> start.contains_key(k),
                forall|id: EntityId| #[trigger] start.contains_key(id) ==> start[id].lock_id == id,
                locks@ == pruned(start, now, keys@.take(i as int).to_set()),
                removed == start.len() - locks@.len(),
                locks@.dom().finite(),
            decreases keys.len() - i,
        {
            let k = keys[i];
            let ghost done = keys@.take(i as int).to_set();
            let ghost done2 = keys@.take(i + 1).to_set();
            proof {
                assert(keys@.take(i + 1) =~= keys@.take(i as int).push(k));
                assert forall|x: EntityId| done2.contains(x) <==> (x == k || done.contains(x)) by {
                    if done2.contains(x) {
                        let j = choose|j: int| 0 <= j < keys@.take(i + 1).len() && #[trigger] keys@.take(i + 1)[j] == x;
                        if j < i {
                            assert(keys@.take(i as int)[j] == x);
                        }
                    }
                    if done.contains(x) {
                        let j = choose|j: int| 0 <= j < keys@.take(i as int).len() && #[trigger] keys@.take(i as int)[j] == x;
                        assert(keys@.take(i + 1)[j] == x);
                    }
                    if x == k {
                        assert(keys@.take(i + 1)[i as int] == x);
                    }
                }
            }
            let expired = match locks.get(&k) {
                Some(l) => l.is_expired_at(now),
                None => false,
            };
            if expired {
                proof {
                    assert(locks@.contains_key(k));
                    assert(locks@.dom().len() >= 1) by {
                        vstd::set_lib::lemma_set_empty_equivalency_len(locks@.dom());
                    }
                    locks@.lemma_remove_key_len(k);
                }
                locks.remove(&k);
                removed = removed + 1;
            }
            proof {
                assert(locks@ =~= pruned(start, now, done2));
            }
            i = i + 1;
        }
        proof {
            assert(keys@.take(keys@.len() as int) =~= keys@);
            assert(locks@ =~= live_locks(start, now));
        }
        self.locks = locks;
        removed
    }

    /// Clean up the locks expired by the clock's current time, returning how
    /// many were removed. Only expired locks are removed; where the clock is
    /// unavailable nothing is removed.
    pub fn cleanup_expired(&mut self) -> (r: Result<usize, ClockUnavailable>)
        ensures
            r matches Ok(n) ==> n == old(self)@.len() - final(self)@.len(),
            r is Ok ==> exists|now: Timestamp| 0 <= now <= CLOCK_RANGE_MILLIS
                && final(self)@ == #[trigger] live_locks(old(self)@, now),
            final(self)@ <= old(self)@,
            forall|k: EntityId| old(self)@.contains_key(k) && !final(self)@.contains_key(k)
                ==> old(self)@[k].expires_at < CLOCK_RANGE_MILLIS,
            r is Err ==> final(self)@ == old(self)@,
    {
        let now = match current_time_millis() {
            Ok(t) => t,
            Err(e) => return Err(e),
        };
        let n = self.cleanup_expired_at(now);
        assert(self@ == live_locks(old(self)@, now));
        Ok(n)
    }
}

/// The locks of `locks` left after removing, among the identifiers in
/// `done`, those expired at `now`.
pub open spec fn pruned(locks: Map<EntityId, DistributedLock>, now: Timestamp, done: Set<EntityId>) -> Map<EntityId, DistributedLock> {
    locks.restrict(locks.dom().filter(|k: EntityId| !(done.contains(k) && lock_expired_at(locks[k], now))))
}

/// Once an exclusive lock on a resource is in place, every acquisition of
/// that resource, in either mode, is refused until the lock expires.
pub proof fn lemma_exclusive_lock_excludes(
    locks: Map<EntityId, DistributedLock>,
    lock: DistributedLock,
    mode: LockMode,
    now: Timestamp,
)
    requires
        lock.mode == LockMode::Exclusive,
        now <= lock.expires_at,
    ensures
        acquire_refused(locks.insert(lock.lock_id, lock), key_of(lock), mode, now),
{
    let held = locks.insert(lock.lock_id, lock);
    assert(held.contains_key(lock.lock_id) && blocks(held[lock.lock_id], key_of(lock), mode, now));
}

/// While any lock on a resource is live, an exclusive acquisition of it is
/// refused; a shared acquisition is refused only by a live exclusive lock.
pub proof fn lemma_exclusive_request_needs_free_resource(
    locks: Map<EntityId, DistributedLock>,
    id: EntityId,
    now: Timestamp,
)
    requires
        locks.contains_key(id),
        !lock_expired_at(locks[id], now),
    ensures
        acquire_refused(locks, key_of(locks[id]), LockMode::Exclusive, now),
        (forall|j: EntityId| locks.contains_key(j) && key_of(locks[j]) == key_of(locks[id])
            && !lock_expired_at(locks[j], now) ==> #[trigger] locks[j].mode == LockMode::Shared)
            ==> !acquire_refused(locks, key_of(locks[id]), LockMode::Shared, now),
{
    assert(blocks(locks[id], key_of(locks[id]), LockMode::Exclusive, now));
}

/// Several readers may hold a resource: while every live lock on it is
/// shared, a shared acquisition is not refused, and taking it keeps the
/// earlier shared holder beside the new one.
pub proof fn lemma_shared_holders_coexist(
    locks: Map<EntityId, DistributedLock>,
    first: EntityId,
    second: DistributedLock,
    now: Timestamp,
)
    requires
        locks.contains_key(first),
        second.lock_id != first,
        key_of(second) == key_of(locks[first]),
        forall|j: EntityId| locks.contains_key(j) && key_of(locks[j]) == key_of(second)
            && !lock_expired_at(locks[j], now) ==> #[trigger] locks[j].mode == LockMode::Shared,
    ensures
        !acquire_refused(locks, key_of(second), LockMode::Shared, now),
        locks.insert(second.lock_id, second).contains_key(first),
        locks.insert(second.lock_id, second)[first] == locks[first],
        locks.insert(second.lock_id, second).contains_key(second.lock_id),
{
}

/// Where no live lock is held on a resource (none at all, or only expired
/// ones), no acquisition of it is refused.
pub proof fn lemma_expired_or_absent_lock_never_blocks(
    locks: Map<EntityId, DistributedLock>,
    key: i64,
    mode: LockMode,
    now: Timestamp,
)
    requires
        forall|j: EntityId| locks.contains_key(j) && #[trigger] key_of(locks[j]) == key ==> lock_expired_at(locks[j], now),
    ensures
        !acquire_refused(locks, key, mode, now),
{
}

/// Once the last live lock on a resource is released, the resource can be
/// acquired again in any mode.
pub proof fn lemma_release_frees_resource(
    locks: Map<EntityId, DistributedLock>,
    id: EntityId,
    key: i64,
    mode: LockMode,
    now: Timestamp,
)
    requires
        forall|j: EntityId| j != id && locks.contains_key(j) && #[trigger] key_of(locks[j]) == key
            ==> lock_expired_at(locks[j], now),
    ensures
        !acquire_refused(locks.remove(id), key, mode, now),
{
}

/// Removing the expired locks at `now` changes no decision about which
/// acquisitions are refused at `now`, and keeps every live lock as it was.
pub proof fn lemma_cleanup_preserves_decisions(
    locks: Map<EntityId, DistributedLock>,
    key: i64,
    mode: LockMode,
    now: Timestamp,
)
    ensures
        acquire_refused(live_locks(locks, now), key, mode, now) == acquire_refused(locks, key, mode, now),
        forall|k: EntityId| locks.contains_key(k) && !lock_expired_at(locks[k], now)
            ==> #[trigger] live_locks(locks, now).contains_key(k) && live_locks(locks, now)[k] == locks[k],
        forall|k: EntityId| #[trigger] live_locks(locks, now).contains_key(k) ==> !lock_expired_at(locks[k], now),
{
    if acquire_refused(locks, key, mode, now) {
        let id = choose|id: EntityId| locks.contains_key(id) && #[trigger] blocks(locks[id], key, mode, now);
        assert(live_locks(locks, now).contains_key(id));
        assert(blocks(live_locks(locks, now)[id], key, mode, now));
    }
}

} // verus!
