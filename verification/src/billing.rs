//! The billing status of a tenant, from its stored billing record.

use vstd::prelude::*;
use crate::ident::{ClockUnavailable, EntityId, Timestamp, CLOCK_RANGE_MILLIS, current_time_millis};
use crate::text::str_eq;

verus! {

/// A tenant's billing plan.
#[derive(Debug, Clone, Copy, PartialEq, Eq, Structural)]
pub enum BillingPlan {
    Trial,
    Pro,
    Enterprise,
}

/// The stored billing record of a tenant; each column may be empty.
#[derive(Debug, Clone)]
pub struct BillingRecord {
    pub plan: Option<String>,
    pub trial_ends_at: Option<Timestamp>,
    pub storage_used_bytes: Option<i64>,
    pub storage_limit_bytes: Option<i64>,
    pub hot_cache_used_bytes: Option<i64>,
    pub hot_cache_limit_bytes: Option<i64>,
}

/// The billing status of a tenant.
#[derive(Debug, Clone, Copy, PartialEq, Eq)]
pub struct BillingStatus {
    pub tenant_id: EntityId,
    pub plan: BillingPlan,
    pub trial_ends_at: Option<Timestamp>,
    pub storage_used_bytes: i64,
    pub storage_limit_bytes: i64,
    pub hot_cache_used_bytes: i64,
    pub hot_cache_limit_bytes: i64,
}

/// The storage limit of a tenant without one recorded: 1 GiB.
pub const DEFAULT_STORAGE_LIMIT_BYTES: i64 = 1073741824;

/// The hot cache limit of a tenant without one recorded: 100 MiB.
pub const DEFAULT_HOT_CACHE_LIMIT_BYTES: i64 = 104857600;

/// The length of a new tenant's trial: 14 days, in milliseconds.
pub const TRIAL_LENGTH_MILLIS: i64 = 1209600000;

/// The plan a stored plan name denotes: `pro` and `enterprise`, and a trial
/// for anything else.
pub open spec fn plan_named(plan: Option<Seq<char>>) -> BillingPlan {
    match plan {
        Some(p) => if p == "pro"@ { BillingPlan::Pro } else if p == "enterprise"@ { BillingPlan::Enterprise } else { BillingPlan::Trial },
        None => BillingPlan::Trial,
    }
}

/// The billing status for a stored record, or for a tenant without one at
/// time `now`: a trial ending fourteen days later, nothing used, the
/// default limits.
pub open spec fn billing_status_spec(tenant_id: EntityId, record: Option<BillingRecord>, now: Timestamp) -> BillingStatus {
    match record {
        Some(r) => BillingStatus {
            tenant_id,
            plan: plan_named(match r.plan { Some(p) => Some(p@), None => None }),
            trial_ends_at: r.trial_ends_at,
            storage_used_bytes: r.storage_used_bytes.unwrap_or(0),
            storage_limit_bytes: r.storage_limit_bytes.unwrap_or(DEFAULT_STORAGE_LIMIT_BYTES),
            hot_cache_used_bytes: r.hot_cache_used_bytes.unwrap_or(0),
            hot_cache_limit_bytes: r.hot_cache_limit_bytes.unwrap_or(DEFAULT_HOT_CACHE_LIMIT_BYTES),
        },
        None => BillingStatus {
            tenant_id,
            plan: BillingPlan::Trial,
            trial_ends_at: Some((now + TRIAL_LENGTH_MILLIS) as i64),
            storage_used_bytes: 0,
            storage_limit_bytes: DEFAULT_STORAGE_LIMIT_BYTES,
            hot_cache_used_bytes: 0,
            hot_cache_limit_bytes: DEFAULT_HOT_CACHE_LIMIT_BYTES,
        },
    }
}

/// The billing status of a tenant at time `now`.
pub fn billing_status_at(tenant_id: EntityId, record: Option<BillingRecord>, now: Timestamp) -> (s: BillingStatus)
    requires
        -CLOCK_RANGE_MILLIS <= now <= CLOCK_RANGE_MILLIS,
    ensures
        s == billing_status_spec(tenant_id, record, now),
{
    match record {
        Some(r) => {
            let plan = match &r.plan {
                Some(p) => if str_eq(p.as_str(), "pro") {
                    BillingPlan::Pro
                } else if str_eq(p.as_str(), "enterprise") {
                    BillingPlan::Enterprise
                } else {
                    BillingPlan::Trial
                },
                None => BillingPlan::Trial,
            };
            BillingStatus {
                tenant_id,
                plan,
                trial_ends_at: r.trial_ends_at,
                storage_used_bytes: match r.storage_used_bytes { Some(v) => v, None => 0 },
                storage_limit_bytes: match r.storage_limit_bytes { Some(v) => v, None => DEFAULT_STORAGE_LIMIT_BYTES },
                hot_cache_used_bytes: match r.hot_cache_used_bytes { Some(v) => v, None => 0 },
                hot_cache_limit_bytes: match r.hot_cache_limit_bytes { Some(v) => v, None => DEFAULT_HOT_CACHE_LIMIT_BYTES },
            }
        },
        None => BillingStatus {
            tenant_id,
            plan: BillingPlan::Trial,
            trial_ends_at: Some(now + TRIAL_LENGTH_MILLIS),
            storage_used_bytes: 0,
            storage_limit_bytes: DEFAULT_STORAGE_LIMIT_BYTES,
            hot_cache_used_bytes: 0,
            hot_cache_limit_bytes: DEFAULT_HOT_CACHE_LIMIT_BYTES,
        },
    }
}

/// The billing status of a tenant now; fails where the clock is unavailable.
pub fn billing_status(tenant_id: EntityId, record: Option<BillingRecord>) -> (r: Result<BillingStatus, ClockUnavailable>)
    ensures
        r matches Ok(s) ==> exists|now: Timestamp| 0 <= now <= CLOCK_RANGE_MILLIS
            && s == billing_status_spec(tenant_id, record, now),
{
    let now = match current_time_millis() {
        Ok(t) => t,
        Err(e) => return Err(e),
    };
    Ok(billing_status_at(tenant_id, record, now))
}

/// A tenant without a billing record is on a trial that ends fourteen days
/// (in milliseconds) after now, with nothing used and limits of 1 GiB of
/// storage and 100 MiB of hot cache; a record's plan is `pro` or
/// `enterprise` by its name and a trial otherwise, and its missing usage
/// counts as nothing used and its missing limits as those defaults.
pub proof fn lemma_billing_defaults(tenant_id: EntityId, record: Option<BillingRecord>, now: Timestamp)
    requires
        record is None ==> now + 14 * 24 * 60 * 60 * 1000 <= i64::MAX,
    ensures
        record is None ==> billing_status_spec(tenant_id, record, now) == (BillingStatus {
            tenant_id,
            plan: BillingPlan::Trial,
            trial_ends_at: Some((now + 14 * 24 * 60 * 60 * 1000) as i64),
            storage_used_bytes: 0,
            storage_limit_bytes: (1024 * 1024 * 1024) as i64,
            hot_cache_used_bytes: 0,
            hot_cache_limit_bytes: (100 * 1024 * 1024) as i64,
        }),
        record matches Some(r) ==> billing_status_spec(tenant_id, record, now).storage_limit_bytes
            == (match r.storage_limit_bytes { Some(l) => l, None => (1024 * 1024 * 1024) as i64 }),
        record matches Some(r) ==> billing_status_spec(tenant_id, record, now).hot_cache_limit_bytes
            == (match r.hot_cache_limit_bytes { Some(l) => l, None => (100 * 1024 * 1024) as i64 }),
        record matches Some(r) ==> billing_status_spec(tenant_id, record, now).storage_used_bytes
            == (match r.storage_used_bytes { Some(u) => u, None => 0 }),
        record matches Some(r) ==> billing_status_spec(tenant_id, record, now).trial_ends_at == r.trial_ends_at,
        plan_named(Some("pro"@)) == BillingPlan::Pro,
        plan_named(Some("enterprise"@)) == BillingPlan::Enterprise,
        plan_named(None) == BillingPlan::Trial,
        forall|p: Seq<char>| p != "pro"@ && p != "enterprise"@ ==> plan_named(Some(p)) == BillingPlan::Trial,
{
    reveal_strlit("pro");
    reveal_strlit("enterprise");
    assert("enterprise"@[0] != "pro"@[0]);
}

} // verus!
