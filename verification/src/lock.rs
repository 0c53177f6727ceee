//! Distributed locks on resources, and the stable key that identifies the
//! locked resource.

use vstd::prelude::*;
use crate::ident::{ClockUnavailable, EntityId, Timestamp, CLOCK_RANGE_MILLIS, current_time_millis, new_entity_id};
use crate::text::owned;

verus! {

/// Lock mode for distributed locks.
#[derive(Debug, Clone, Copy, PartialEq, Eq, Hash, Structural)]
pub enum LockMode {
    /// Exclusive lock - only one holder
    Exclusive,
    /// Shared lock - multiple readers allowed
    Shared,
}

/// The largest lock timeout or extension, in milliseconds, in either direction.
pub const MAX_LOCK_SPAN_MILLIS: i64 = 4_611_686_018_427_387_904;

/// A distributed lock on a resource.
#[derive(Debug, PartialEq)]
pub struct DistributedLock {
    /// Unique identifier for this lock
    pub lock_id: EntityId,
    /// Type of resource being locked
    pub resource_type: String,
    /// ID of the resource being locked
    pub resource_id: EntityId,
    /// Agent holding the lock
    pub holder_agent_id: EntityId,
    /// When the lock was acquired
    pub acquired_at: Timestamp,
    /// When the lock expires
    pub expires_at: Timestamp,
    /// Lock mode
    pub mode: LockMode,
}

impl Clone for DistributedLock {
    fn clone(&self) -> (r: Self)
        ensures
            r == *self,
    {
        DistributedLock {
            lock_id: self.lock_id,
            resource_type: self.resource_type.clone(),
            resource_id: self.resource_id,
            holder_agent_id: self.holder_agent_id,
            acquired_at: self.acquired_at,
            expires_at: self.expires_at,
            mode: self.mode,
        }
    }
}

/// A lock has expired at time `now` once `now` is past its expiry.
pub open spec fn lock_expired_at(lock: DistributedLock, now: Timestamp) -> bool {
    now > lock.expires_at
}

impl DistributedLock {
    /// Create a new lock held by `holder_agent_id`, acquired now and expiring
    /// `timeout_ms` milliseconds later. Fails where the clock is unavailable.
    pub fn new(
        resource_type: &str,
        resource_id: EntityId,
        holder_agent_id: EntityId,
        timeout_ms: i64,
        mode: LockMode,
    ) -> (r: Result<Self, ClockUnavailable>)
        requires
            -MAX_LOCK_SPAN_MILLIS <= timeout_ms <= MAX_LOCK_SPAN_MILLIS,
        ensures
            r matches Ok(l) ==> l.resource_type@ == resource_type@,
            r matches Ok(l) ==> l.resource_id == resource_id,
            r matches Ok(l) ==> l.holder_agent_id == holder_agent_id,
            r matches Ok(l) ==> l.expires_at == l.acquired_at + timeout_ms,
            r matches Ok(l) ==> 0 <= l.acquired_at <= CLOCK_RANGE_MILLIS,
            r matches Ok(l) ==> l.mode == mode,
    {
        let now = match current_time_millis() {
            Ok(t) => t,
            Err(e) => return Err(e),
        };
        let lock_id = match new_entity_id() {
            Ok(id) => id,
            Err(e) => return Err(e),
        };
        Ok(DistributedLock {
            lock_id,
            resource_type: owned(resource_type),
            resource_id,
            holder_agent_id,
            acquired_at: now,
            expires_at: now + timeout_ms,
            mode,
        })
    }

    /// Whether the lock has expired at time `now`.
    pub fn is_expired_at(&self, now: Timestamp) -> (b: bool)
        ensures
            b == lock_expired_at(*self, now),
    {
        now > self.expires_at
    }

    /// Check if the lock has expired by the clock's current time. Fails
    /// where the clock is unavailable.
    pub fn is_expired(&self) -> (r: Result<bool, ClockUnavailable>)
        ensures
            r matches Ok(b) ==> exists|now: Timestamp| 0 <= now <= CLOCK_RANGE_MILLIS
                && b == #[trigger] lock_expired_at(*self, now),
    {
        match current_time_millis() {
            Ok(now) => {
                let b = self.is_expired_at(now);
                assert(b == lock_expired_at(*self, now));
                Ok(b)
            },
            Err(e) => Err(e),
        }
    }

    /// Extend the lock expiration by `additional_ms`.
    pub fn extend(&mut self, additional_ms: i64)
        requires
            i64::MIN <= old(self).expires_at + additional_ms <= i64::MAX,
        ensures
            *final(self) == (DistributedLock { expires_at: (old(self).expires_at + additional_ms) as i64, ..*old(self) }),
    {
        self.expires_at = self.expires_at + additional_ms;
    }

    /// Compute a stable hash key for this lock (for advisory locks).
    pub fn compute_key(&self) -> (k: i64)
        ensures
            k == lock_key(self.resource_type@, self.resource_id),
    {
        compute_lock_key(self.resource_type.as_str(), self.resource_id)
    }
}

/// FNV-1a 64-bit offset basis.
pub const FNV_OFFSET_BASIS: u64 = 0xcbf29ce484222325;

/// FNV-1a 64-bit prime.
pub const FNV_PRIME: u64 = 0x100000001b3;

/// One FNV-1a step: xor the byte in, then multiply by the prime modulo 2^64.
pub open spec fn fnv1a_step(h: u64, b: u8) -> u64 {
    (h ^ (b as u64)).wrapping_mul(FNV_PRIME)
}

/// FNV-1a of `bytes`, starting from hash state `h`.
pub open spec fn fnv1a(h: u64, bytes: Seq<u8>) -> u64
    decreases bytes.len(),
{
    if bytes.len() == 0 {
        h
    } else {
        fnv1a_step(fnv1a(h, bytes.drop_last()), bytes.last())
    }
}

/// Byte `i` (0 = most significant) of a 128-bit identifier.
pub open spec fn id_byte(id: EntityId, i: int) -> u8 {
    (id >> ((8 * (15 - i)) as u32)) as u8
}

/// The 16 bytes of an identifier, most significant first: the bytes of the
/// UUID it is the value of.
pub open spec fn id_bytes(id: EntityId) -> Seq<u8> {
    Seq::new(16, |i: int| id_byte(id, i))
}

/// The advisory-lock key of a resource: FNV-1a over the UTF-8 bytes of its
/// type followed by the bytes of its identifier, read as a signed integer.
pub open spec fn lock_key(resource_type: Seq<char>, resource_id: EntityId) -> i64 {
    fnv1a(FNV_OFFSET_BASIS, vstd::utf8::encode_utf8(resource_type) + id_bytes(resource_id)) as i64
}

proof fn lemma_fnv1a_push(h: u64, bytes: Seq<u8>, b: u8)
    ensures
        fnv1a(h, bytes.push(b)) == fnv1a_step(fnv1a(h, bytes), b),
{
    assert(bytes.push(b).drop_last() =~= bytes);
}

/// Compute a stable i64 key for advisory locks using FNV-1a hash.
/// FNV-1a is deterministic across Rust versions and compilations.
pub fn compute_lock_key(resource_type: &str, resource_id: EntityId) -> (k: i64)
    ensures
        k == lock_key(resource_type@, resource_id),
{
    let bytes = resource_type.as_bytes();
    let ghost all = bytes@ + id_bytes(resource_id);
    let mut hash: u64 = FNV_OFFSET_BASIS;
    let mut i: usize = 0;
    while i < bytes.len()
        invariant
            i <= bytes@.len(),
            all == bytes@ + id_bytes(resource_id),
            hash == fnv1a(FNV_OFFSET_BASIS, all.take(i as int)),
        decreases bytes.len() - i,
    {
        proof {
            lemma_fnv1a_push(FNV_OFFSET_BASIS, all.take(i as int), all[i as int]);
            assert(all.take(i as int).push(all[i as int]) =~= all.take(i + 1));
        }
        hash = (hash ^ (bytes[i] as u64)).wrapping_mul(FNV_PRIME);
        i = i + 1;
    }
    let n = bytes.len();
    let mut j: u32 = 0;
    while j < 16
        invariant
            n == bytes@.len(),
            j <= 16,
            all == bytes@ + id_bytes(resource_id),
            all.len() == n + 16,
            hash == fnv1a(FNV_OFFSET_BASIS, all.take(n + j)),
        decreases 16 - j,
    {
        proof {
            lemma_fnv1a_push(FNV_OFFSET_BASIS, all.take(n + j), all[n + j]);
            assert(all.take(n + j).push(all[n + j]) =~= all.take(n + j + 1));
            assert(all[n + j] == id_byte(resource_id, j as int));
        }
        let b = (resource_id >> (8 * (15 - j))) as u8;
        hash = (hash ^ (b as u64)).wrapping_mul(FNV_PRIME);
        j = j + 1;
    }
    assert(all.take(n + 16) =~= all);
    hash as i64
}

/// A lock holds up to and including its expiry time and has expired at
/// every time after it; extending it by a non-negative span moves its expiry
/// later by that span and keeps it held wherever it was held before.
pub proof fn lemma_lock_expiry(lock: DistributedLock, now: Timestamp, additional_ms: i64)
    requires
        additional_ms >= 0,
        lock.expires_at + additional_ms <= i64::MAX,
    ensures
        !lock_expired_at(lock, lock.expires_at),
        lock_expired_at(lock, now) <==> now > lock.expires_at,
        ({
            let extended = DistributedLock { expires_at: (lock.expires_at + additional_ms) as i64, ..lock };
            &&& extended.expires_at == lock.expires_at + additional_ms
            &&& (!lock_expired_at(lock, now) ==> !lock_expired_at(extended, now))
        }),
{
}

} // verus!
