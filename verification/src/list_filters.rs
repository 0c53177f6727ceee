//! The list filters of the API's entities: each builds the conditions of a
//! listing query and the parameters they refer to as `$1`, `$2`, ...

use vstd::prelude::*;
use crate::ident::{EntityId, uuid_text, uuid_to_string};
use crate::codes::{TrajectoryStatus, trajectory_status_name, ArtifactType, artifact_type_name, NoteType, note_type_name};
use crate::text::{owned, push_str};
use crate::component::{ListFilter, SqlParam, Step, WhereBuilder, numbered, opt_view, params_view, step_params,
    where_clause, uuid_v, text_v, bool_v, json_v, ParamV, has_condition, present, flag_set,
    clause_filters_on, occurs_in, lemma_conditions_in_clause, lemma_condition_in_clause,
    lemma_push_step, lemma_numbered_len, lemma_steps_rendered};

verus! {

/// The condition `prefix$n suffix` with its parameter.
pub open spec fn cond(prefix: Seq<char>, suffix: Seq<char>, v: ParamV) -> Step {
    (prefix, suffix, Some(v))
}

/// The condition `column = $n` with its parameter.
pub open spec fn eq_cond(column_eq: Seq<char>, v: ParamV) -> Step {
    (column_eq, Seq::empty(), Some(v))
}

/// A condition that takes no parameter.
pub open spec fn plain(text: Seq<char>) -> Step {
    (text, Seq::empty(), None)
}

/// The steps followed by the option's step where the option is present.
pub open spec fn then_opt<T>(steps: Seq<Step>, o: Option<T>, step: spec_fn(T) -> Step) -> Seq<Step> {
    match o {
        Some(v) => steps.push(step(v)),
        None => steps,
    }
}

/// The steps followed by `step` where the flag is `Some(true)`.
pub open spec fn then_flag(steps: Seq<Step>, o: Option<bool>, step: Step) -> Seq<Step> {
    if o == Some(true) { steps.push(step) } else { steps }
}

/// The condition on the tenant, which tenant-scoped listings start with.
pub open spec fn tenant_step(tenant_id: EntityId) -> Step {
    eq_cond("tenant_id = "@, uuid_v(tenant_id))
}


/// The status of a tenant.
#[derive(Debug, Clone, Copy, PartialEq, Eq, Structural)]
pub enum TenantStatus {
    Active,
    Suspended,
    Archived,
}

/// The name a tenant status is stored under.
pub open spec fn tenant_status_name(s: TenantStatus) -> Seq<char> {
    match s {
        TenantStatus::Active => "active"@,
        TenantStatus::Suspended => "suspended"@,
        TenantStatus::Archived => "archived"@,
    }
}

impl TenantStatus {
    /// The name this status is stored under.
    pub fn as_str(&self) -> (s: &'static str)
        ensures
            s@ == tenant_status_name(*self),
    {
        match self {
            TenantStatus::Active => "active",
            TenantStatus::Suspended => "suspended",
            TenantStatus::Archived => "archived",
        }
    }
}

/// Filter for listing tenants; tenants are not tenant-scoped.
#[derive(Debug, Clone, Default)]
pub struct TenantListFilter {
    /// Filter by tenant status
    pub status: Option<TenantStatus>,
    /// Filter by domain (exact match)
    pub domain: Option<String>,
    /// Maximum number of results
    pub limit: Option<i32>,
    /// Offset for pagination
    pub offset: Option<i32>,
}

/// The conditions of a tenant listing: status, then domain.
pub open spec fn tenant_steps(f: TenantListFilter, tenant_id: EntityId) -> Seq<Step> {
    let s = Seq::<Step>::empty();
    let s = then_opt(s, f.status, |s: TenantStatus| eq_cond("status = "@, text_v(tenant_status_name(s))));
    let s = then_opt(s, f.domain, |t: String| eq_cond("domain = "@, text_v(t@)));
    s
}

impl ListFilter for TenantListFilter {
    fn build_where(&self, tenant_id: EntityId) -> (r: (Option<String>, Vec<SqlParam>))
        ensures
            opt_view(r.0) == where_clause(numbered(tenant_steps(*self, tenant_id))),
            params_view(r.1@) == step_params(tenant_steps(*self, tenant_id)),
            params_view(r.1@).len() == present(self.status) + present(self.domain),
            r.0 is None <==> present(self.status) + present(self.domain) == 0,
            self.status matches Some(x) ==> clause_filters_on(opt_view(r.0), params_view(r.1@),
                "status = "@, Seq::empty(), text_v(tenant_status_name(x))),
            self.domain matches Some(x) ==> clause_filters_on(opt_view(r.0), params_view(r.1@),
                "domain = "@, Seq::empty(), text_v(x@)),
    {
        let mut b = WhereBuilder::new();
        if let Some(s) = &self.status {
            b.add_eq("status = ", SqlParam::String(owned(s.as_str())));
        }
        if let Some(t) = &self.domain {
            b.add_eq("domain = ", SqlParam::String(t.clone()));
        }
        assert(b.steps() =~= tenant_steps(*self, tenant_id));
        proof {
            let steps = tenant_steps(*self, tenant_id);
            lemma_tenant_filter_conditions(*self, tenant_id);
            lemma_conditions_in_clause(numbered(steps));
            lemma_condition_in_clause(numbered(steps), step_params(steps));
        }
        b.finish()
    }

    fn limit(&self) -> (n: i32)
        ensures
            n == self.limit.unwrap_or(100),
    {
        match self.limit {
            Some(n) => n,
            None => 100,
        }
    }

    fn offset(&self) -> (n: i32)
        ensures
            n == self.offset.unwrap_or(0),
    {
        match self.offset {
            Some(n) => n,
            None => 0,
        }
    }
}

/// Filter for listing webhooks.
#[derive(Debug, Clone, Default)]
pub struct WebhookListFilter {
    /// Filter by activity
    pub is_active: Option<bool>,
    /// Only webhooks subscribed to this event
    pub event: Option<String>,
    /// Maximum number of results
    pub limit: Option<i32>,
    /// Offset for pagination
    pub offset: Option<i32>,
}

/// The conditions of a webhook listing: tenant, activity, subscription to the event.
pub open spec fn webhook_steps(f: WebhookListFilter, tenant_id: EntityId) -> Seq<Step> {
    let s = seq![tenant_step(tenant_id)];
    let s = then_opt(s, f.is_active, |v: bool| eq_cond("is_active = "@, bool_v(v)));
    let s = then_opt(s, f.event, |e: String| cond("events @> ARRAY["@, "]::text[]"@, text_v(e@)));
    s
}

impl ListFilter for WebhookListFilter {
    fn build_where(&self, tenant_id: EntityId) -> (r: (Option<String>, Vec<SqlParam>))
        ensures
            opt_view(r.0) == where_clause(numbered(webhook_steps(*self, tenant_id))),
            params_view(r.1@) == step_params(webhook_steps(*self, tenant_id)),
            params_view(r.1@).len() == 1 + present(self.is_active) + present(self.event),
            clause_filters_on(opt_view(r.0), params_view(r.1@), "tenant_id = "@, Seq::empty(), uuid_v(tenant_id)),
            self.is_active matches Some(x) ==> clause_filters_on(opt_view(r.0), params_view(r.1@),
                "is_active = "@, Seq::empty(), bool_v(x)),
            self.event matches Some(x) ==> clause_filters_on(opt_view(r.0), params_view(r.1@),
                "events @> ARRAY["@, "]::text[]"@, text_v(x@)),
    {
        let mut b = WhereBuilder::new();
        b.add_eq("tenant_id = ", SqlParam::Uuid(tenant_id));
        if let Some(v) = self.is_active {
            b.add_eq("is_active = ", SqlParam::Bool(v));
        }
        if let Some(e) = &self.event {
            b.add("events @> ARRAY[", "]::text[]", SqlParam::String(e.clone()));
        }
        assert(b.steps() =~= webhook_steps(*self, tenant_id));
        proof {
            let steps = webhook_steps(*self, tenant_id);
            lemma_webhook_filter_conditions(*self, tenant_id);
            lemma_conditions_in_clause(numbered(steps));
            lemma_condition_in_clause(numbered(steps), step_params(steps));
        }
        b.finish()
    }

    fn limit(&self) -> (n: i32)
        ensures
            n == self.limit.unwrap_or(100),
    {
        match self.limit {
            Some(n) => n,
            None => 100,
        }
    }

    fn offset(&self) -> (n: i32)
        ensures
            n == self.offset.unwrap_or(0),
    {
        match self.offset {
            Some(n) => n,
            None => 0,
        }
    }
}

/// Filter for listing API keys.
#[derive(Debug, Clone, Default)]
pub struct ApiKeyListFilter {
    /// Filter by activity
    pub is_active: Option<bool>,
    /// Names containing this text, in any case
    pub name: Option<String>,
    /// Maximum number of results
    pub limit: Option<i32>,
    /// Offset for pagination
    pub offset: Option<i32>,
}

/// The conditions of an API key listing: tenant, activity, name containing the text.
pub open spec fn api_key_steps(f: ApiKeyListFilter, tenant_id: EntityId) -> Seq<Step> {
    let s = seq![tenant_step(tenant_id)];
    let s = then_opt(s, f.is_active, |v: bool| eq_cond("is_active = "@, bool_v(v)));
    let s = then_opt(s, f.name, |n: String| eq_cond("name ILIKE "@, text_v("%"@ + n@ + "%"@)));
    s
}

impl ListFilter for ApiKeyListFilter {
    fn build_where(&self, tenant_id: EntityId) -> (r: (Option<String>, Vec<SqlParam>))
        ensures
            opt_view(r.0) == where_clause(numbered(api_key_steps(*self, tenant_id))),
            params_view(r.1@) == step_params(api_key_steps(*self, tenant_id)),
            params_view(r.1@).len() == 1 + present(self.is_active) + present(self.name),
            clause_filters_on(opt_view(r.0), params_view(r.1@), "tenant_id = "@, Seq::empty(), uuid_v(tenant_id)),
            self.is_active matches Some(x) ==> clause_filters_on(opt_view(r.0), params_view(r.1@),
                "is_active = "@, Seq::empty(), bool_v(x)),
            self.name matches Some(x) ==> clause_filters_on(opt_view(r.0), params_view(r.1@),
                "name ILIKE "@, Seq::empty(), text_v("%"@ + x@ + "%"@)),
    {
        let mut b = WhereBuilder::new();
        b.add_eq("tenant_id = ", SqlParam::Uuid(tenant_id));
        if let Some(v) = self.is_active {
            b.add_eq("is_active = ", SqlParam::Bool(v));
        }
        if let Some(n) = &self.name {
            let mut pattern = owned("%");
            push_str(&mut pattern, n.as_str());
            push_str(&mut pattern, "%");
            b.add_eq("name ILIKE ", SqlParam::String(pattern));
        }
        assert(b.steps() =~= api_key_steps(*self, tenant_id));
        proof {
            let steps = api_key_steps(*self, tenant_id);
            lemma_api_key_filter_conditions(*self, tenant_id);
            lemma_conditions_in_clause(numbered(steps));
            lemma_condition_in_clause(numbered(steps), step_params(steps));
        }
        b.finish()
    }

    fn limit(&self) -> (n: i32)
        ensures
            n == self.limit.unwrap_or(100),
    {
        match self.limit {
            Some(n) => n,
            None => 100,
        }
    }

    fn offset(&self) -> (n: i32)
        ensures
            n == self.offset.unwrap_or(0),
    {
        match self.offset {
            Some(n) => n,
            None => 0,
        }
    }
}

/// Filter for listing edges; edges can cross tenants, so the request's tenant is not filtered on.
#[derive(Debug, Clone, Default)]
pub struct EdgeListFilter {
    /// Edges with this participant in the "source" role
    pub source_id: Option<EntityId>,
    /// Edges with this participant as target
    pub target_id: Option<EntityId>,
    /// Edges with this participant in any role
    pub participant_id: Option<EntityId>,
    /// Edges of this tenant
    pub tenant_id: Option<EntityId>,
    /// Edges of this type, by the type's name
    pub edge_type: Option<String>,
    /// Edges in this trajectory
    pub trajectory_id: Option<EntityId>,
    /// Maximum number of results
    pub limit: Option<i32>,
    /// Offset for pagination
    pub offset: Option<i32>,
}

/// The conditions of an edge listing: tenant, type, trajectory, participant, source, target.
pub open spec fn edge_steps(f: EdgeListFilter, tenant_id: EntityId) -> Seq<Step> {
    let s = Seq::<Step>::empty();
    let s = then_opt(s, f.tenant_id, |id: EntityId| eq_cond("tenant_id = "@, uuid_v(id)));
    let s = then_opt(s, f.edge_type, |t: String| eq_cond("edge_type = "@, text_v(t@)));
    let s = then_opt(s, f.trajectory_id, |id: EntityId| eq_cond("trajectory_id = "@, uuid_v(id)));
    let s = then_opt(s, f.participant_id, |id: EntityId| cond("EXISTS (SELECT 1 FROM jsonb_array_elements(participants) p WHERE p->>'entity_id' = "@, ")"@, text_v(uuid_text(id))));
    let s = then_opt(s, f.source_id, |id: EntityId| cond("EXISTS (SELECT 1 FROM jsonb_array_elements(participants) p WHERE p->>'entity_id' = "@,
            " AND p->>'role' = 'source')"@, text_v(uuid_text(id))));
    let s = then_opt(s, f.target_id, |id: EntityId| cond("EXISTS (SELECT 1 FROM jsonb_array_elements(participants) p WHERE p->>'entity_id' = "@,
            " AND p->>'role' = 'target')"@, text_v(uuid_text(id))));
    s
}

impl ListFilter for EdgeListFilter {
    fn build_where(&self, tenant_id: EntityId) -> (r: (Option<String>, Vec<SqlParam>))
        ensures
            opt_view(r.0) == where_clause(numbered(edge_steps(*self, tenant_id))),
            params_view(r.1@) == step_params(edge_steps(*self, tenant_id)),
            params_view(r.1@).len() == present(self.tenant_id) + present(self.edge_type)
                + present(self.trajectory_id) + present(self.participant_id)
                + present(self.source_id) + present(self.target_id),
            r.0 is None <==> present(self.tenant_id) + present(self.edge_type)
                + present(self.trajectory_id) + present(self.participant_id)
                + present(self.source_id) + present(self.target_id) == 0,
            self.tenant_id matches Some(x) ==> clause_filters_on(opt_view(r.0), params_view(r.1@),
                "tenant_id = "@, Seq::empty(), uuid_v(x)),
            self.edge_type matches Some(x) ==> clause_filters_on(opt_view(r.0), params_view(r.1@),
                "edge_type = "@, Seq::empty(), text_v(x@)),
            self.trajectory_id matches Some(x) ==> clause_filters_on(opt_view(r.0), params_view(r.1@),
                "trajectory_id = "@, Seq::empty(), uuid_v(x)),
            self.participant_id matches Some(x) ==> clause_filters_on(opt_view(r.0), params_view(r.1@),
                "EXISTS (SELECT 1 FROM jsonb_array_elements(participants) p WHERE p->>'entity_id' = "@, ")"@, text_v(uuid_text(x))),
            self.source_id matches Some(x) ==> clause_filters_on(opt_view(r.0), params_view(r.1@),
                "EXISTS (SELECT 1 FROM jsonb_array_elements(participants) p WHERE p->>'entity_id' = "@, " AND p->>'role' = 'source')"@, text_v(uuid_text(x))),
            self.target_id matches Some(x) ==> clause_filters_on(opt_view(r.0), params_view(r.1@),
                "EXISTS (SELECT 1 FROM jsonb_array_elements(participants) p WHERE p->>'entity_id' = "@, " AND p->>'role' = 'target')"@, text_v(uuid_text(x))),
    {
        let mut b = WhereBuilder::new();
        if let Some(id) = self.tenant_id {
            b.add_eq("tenant_id = ", SqlParam::Uuid(id));
        }
        if let Some(t) = &self.edge_type {
            b.add_eq("edge_type = ", SqlParam::String(t.clone()));
        }
        if let Some(id) = self.trajectory_id {
            b.add_eq("trajectory_id = ", SqlParam::Uuid(id));
        }
        if let Some(id) = self.participant_id {
            b.add("EXISTS (SELECT 1 FROM jsonb_array_elements(participants) p WHERE p->>'entity_id' = ", ")", SqlParam::String(uuid_to_string(id)));
        }
        if let Some(id) = self.source_id {
            b.add("EXISTS (SELECT 1 FROM jsonb_array_elements(participants) p WHERE p->>'entity_id' = ",
                " AND p->>'role' = 'source')", SqlParam::String(uuid_to_string(id)));
        }
        if let Some(id) = self.target_id {
            b.add("EXISTS (SELECT 1 FROM jsonb_array_elements(participants) p WHERE p->>'entity_id' = ",
                " AND p->>'role' = 'target')", SqlParam::String(uuid_to_string(id)));
        }
        assert(b.steps() =~= edge_steps(*self, tenant_id));
        proof {
            let steps = edge_steps(*self, tenant_id);
            lemma_edge_filter_conditions(*self, tenant_id);
            lemma_conditions_in_clause(numbered(steps));
            lemma_condition_in_clause(numbered(steps), step_params(steps));
        }
        b.finish()
    }

    fn limit(&self) -> (n: i32)
        ensures
            n == self.limit.unwrap_or(100),
    {
        match self.limit {
            Some(n) => n,
            None => 100,
        }
    }

    fn offset(&self) -> (n: i32)
        ensures
            n == self.offset.unwrap_or(0),
    {
        match self.offset {
            Some(n) => n,
            None => 0,
        }
    }
}

/// Filter for listing messages.
#[derive(Debug, Clone, Default)]
pub struct MessageListFilter {
    /// Filter by message type
    pub message_type: Option<String>,
    /// Filter by sender agent
    pub from_agent_id: Option<EntityId>,
    /// Filter by recipient agent
    pub to_agent_id: Option<EntityId>,
    /// Filter by recipient agent type
    pub to_agent_type: Option<String>,
    /// Filter by trajectory
    pub trajectory_id: Option<EntityId>,
    /// Filter by priority
    pub priority: Option<String>,
    /// Only return undelivered messages
    pub undelivered_only: Option<bool>,
    /// Only return unacknowledged messages
    pub unacknowledged_only: Option<bool>,
    /// Maximum number of results
    pub limit: Option<i32>,
    /// Offset for pagination
    pub offset: Option<i32>,
}

/// The conditions of a message listing: tenant, type, sender, recipient, recipient type, trajectory, priority, then the delivery and acknowledgement flags.
pub open spec fn message_steps(f: MessageListFilter, tenant_id: EntityId) -> Seq<Step> {
    let s = seq![tenant_step(tenant_id)];
    let s = then_opt(s, f.message_type, |t: String| eq_cond("message_type = "@, text_v(t@)));
    let s = then_opt(s, f.from_agent_id, |id: EntityId| eq_cond("from_agent_id = "@, uuid_v(id)));
    let s = then_opt(s, f.to_agent_id, |id: EntityId| eq_cond("to_agent_id = "@, uuid_v(id)));
    let s = then_opt(s, f.to_agent_type, |t: String| eq_cond("to_agent_type = "@, text_v(t@)));
    let s = then_opt(s, f.trajectory_id, |id: EntityId| eq_cond("trajectory_id = "@, uuid_v(id)));
    let s = then_opt(s, f.priority, |t: String| eq_cond("priority = "@, text_v(t@)));
    let s = then_flag(s, f.undelivered_only, plain("delivered_at IS NULL"@));
    let s = then_flag(s, f.unacknowledged_only, plain("acknowledged_at IS NULL"@));
    s
}

impl ListFilter for MessageListFilter {
    fn build_where(&self, tenant_id: EntityId) -> (r: (Option<String>, Vec<SqlParam>))
        ensures
            opt_view(r.0) == where_clause(numbered(message_steps(*self, tenant_id))),
            params_view(r.1@) == step_params(message_steps(*self, tenant_id)),
            params_view(r.1@).len() == 1 + present(self.message_type) + present(self.from_agent_id)
                + present(self.to_agent_id) + present(self.to_agent_type)
                + present(self.trajectory_id) + present(self.priority),
            clause_filters_on(opt_view(r.0), params_view(r.1@), "tenant_id = "@, Seq::empty(), uuid_v(tenant_id)),
            self.message_type matches Some(x) ==> clause_filters_on(opt_view(r.0), params_view(r.1@),
                "message_type = "@, Seq::empty(), text_v(x@)),
            self.from_agent_id matches Some(x) ==> clause_filters_on(opt_view(r.0), params_view(r.1@),
                "from_agent_id = "@, Seq::empty(), uuid_v(x)),
            self.to_agent_id matches Some(x) ==> clause_filters_on(opt_view(r.0), params_view(r.1@),
                "to_agent_id = "@, Seq::empty(), uuid_v(x)),
            self.to_agent_type matches Some(x) ==> clause_filters_on(opt_view(r.0), params_view(r.1@),
                "to_agent_type = "@, Seq::empty(), text_v(x@)),
            self.trajectory_id matches Some(x) ==> clause_filters_on(opt_view(r.0), params_view(r.1@),
                "trajectory_id = "@, Seq::empty(), uuid_v(x)),
            self.priority matches Some(x) ==> clause_filters_on(opt_view(r.0), params_view(r.1@),
                "priority = "@, Seq::empty(), text_v(x@)),
            self.undelivered_only == Some(true) ==> (opt_view(r.0) matches Some(c) && occurs_in(c, "delivered_at IS NULL"@)),
            self.unacknowledged_only == Some(true) ==> (opt_view(r.0) matches Some(c) && occurs_in(c, "acknowledged_at IS NULL"@)),
    {
        let mut b = WhereBuilder::new();
        b.add_eq("tenant_id = ", SqlParam::Uuid(tenant_id));
        if let Some(t) = &self.message_type {
            b.add_eq("message_type = ", SqlParam::String(t.clone()));
        }
        if let Some(id) = self.from_agent_id {
            b.add_eq("from_agent_id = ", SqlParam::Uuid(id));
        }
        if let Some(id) = self.to_agent_id {
            b.add_eq("to_agent_id = ", SqlParam::Uuid(id));
        }
        if let Some(t) = &self.to_agent_type {
            b.add_eq("to_agent_type = ", SqlParam::String(t.clone()));
        }
        if let Some(id) = self.trajectory_id {
            b.add_eq("trajectory_id = ", SqlParam::Uuid(id));
        }
        if let Some(t) = &self.priority {
            b.add_eq("priority = ", SqlParam::String(t.clone()));
        }
        if self.undelivered_only == Some(true) {
            b.add_plain("delivered_at IS NULL");
        }
        if self.unacknowledged_only == Some(true) {
            b.add_plain("acknowledged_at IS NULL");
        }
        assert(b.steps() =~= message_steps(*self, tenant_id));
        proof {
            let steps = message_steps(*self, tenant_id);
            lemma_message_filter_conditions(*self, tenant_id);
            lemma_conditions_in_clause(numbered(steps));
            lemma_condition_in_clause(numbered(steps), step_params(steps));
        }
        b.finish()
    }

    fn limit(&self) -> (n: i32)
        ensures
            n == self.limit.unwrap_or(100),
    {
        match self.limit {
            Some(n) => n,
            None => 100,
        }
    }

    fn offset(&self) -> (n: i32)
        ensures
            n == self.offset.unwrap_or(0),
    {
        match self.offset {
            Some(n) => n,
            None => 0,
        }
    }
}

/// Filter for listing locks.
#[derive(Debug, Clone, Default)]
pub struct LockListFilter {
    /// Filter by holder
    pub holder_agent_id: Option<EntityId>,
    /// Filter by resource type
    pub resource_type: Option<String>,
    /// Filter by resource
    pub resource_id: Option<EntityId>,
    /// Filter by mode
    pub mode: Option<String>,
    /// Maximum number of results
    pub limit: Option<i32>,
    /// Offset for pagination
    pub offset: Option<i32>,
}

/// The conditions of a lock listing: tenant, holder, resource type, resource, mode.
pub open spec fn lock_steps(f: LockListFilter, tenant_id: EntityId) -> Seq<Step> {
    let s = seq![tenant_step(tenant_id)];
    let s = then_opt(s, f.holder_agent_id, |id: EntityId| eq_cond("holder_agent_id = "@, uuid_v(id)));
    let s = then_opt(s, f.resource_type, |t: String| eq_cond("resource_type = "@, text_v(t@)));
    let s = then_opt(s, f.resource_id, |id: EntityId| eq_cond("resource_id = "@, uuid_v(id)));
    let s = then_opt(s, f.mode, |t: String| eq_cond("mode = "@, text_v(t@)));
    s
}

impl ListFilter for LockListFilter {
    fn build_where(&self, tenant_id: EntityId) -> (r: (Option<String>, Vec<SqlParam>))
        ensures
            opt_view(r.0) == where_clause(numbered(lock_steps(*self, tenant_id))),
            params_view(r.1@) == step_params(lock_steps(*self, tenant_id)),
            params_view(r.1@).len() == 1 + present(self.holder_agent_id)
                + present(self.resource_type) + present(self.resource_id) + present(self.mode),
            clause_filters_on(opt_view(r.0), params_view(r.1@), "tenant_id = "@, Seq::empty(), uuid_v(tenant_id)),
            self.holder_agent_id matches Some(x) ==> clause_filters_on(opt_view(r.0), params_view(r.1@),
                "holder_agent_id = "@, Seq::empty(), uuid_v(x)),
            self.resource_type matches Some(x) ==> clause_filters_on(opt_view(r.0), params_view(r.1@),
                "resource_type = "@, Seq::empty(), text_v(x@)),
            self.resource_id matches Some(x) ==> clause_filters_on(opt_view(r.0), params_view(r.1@),
                "resource_id = "@, Seq::empty(), uuid_v(x)),
            self.mode matches Some(x) ==> clause_filters_on(opt_view(r.0), params_view(r.1@),
                "mode = "@, Seq::empty(), text_v(x@)),
    {
        let mut b = WhereBuilder::new();
        b.add_eq("tenant_id = ", SqlParam::Uuid(tenant_id));
        if let Some(id) = self.holder_agent_id {
            b.add_eq("holder_agent_id = ", SqlParam::Uuid(id));
        }
        if let Some(t) = &self.resource_type {
            b.add_eq("resource_type = ", SqlParam::String(t.clone()));
        }
        if let Some(id) = self.resource_id {
            b.add_eq("resource_id = ", SqlParam::Uuid(id));
        }
        if let Some(t) = &self.mode {
            b.add_eq("mode = ", SqlParam::String(t.clone()));
        }
        assert(b.steps() =~= lock_steps(*self, tenant_id));
        proof {
            let steps = lock_steps(*self, tenant_id);
            lemma_lock_filter_conditions(*self, tenant_id);
            lemma_conditions_in_clause(numbered(steps));
            lemma_condition_in_clause(numbered(steps), step_params(steps));
        }
        b.finish()
    }

    fn limit(&self) -> (n: i32)
        ensures
            n == self.limit.unwrap_or(100),
    {
        match self.limit {
            Some(n) => n,
            None => 100,
        }
    }

    fn offset(&self) -> (n: i32)
        ensures
            n == self.offset.unwrap_or(0),
    {
        match self.offset {
            Some(n) => n,
            None => 0,
        }
    }
}

/// Filter for listing handoffs.
#[derive(Debug, Clone, Default)]
pub struct HandoffListFilter {
    /// Filter by handing agent
    pub from_agent_id: Option<EntityId>,
    /// Filter by receiving agent
    pub to_agent_id: Option<EntityId>,
    /// Filter by trajectory
    pub trajectory_id: Option<EntityId>,
    /// Filter by status
    pub status: Option<String>,
    /// Maximum number of results
    pub limit: Option<i32>,
    /// Offset for pagination
    pub offset: Option<i32>,
}

/// The conditions of a handoff listing: tenant, from, to, trajectory, status.
pub open spec fn handoff_steps(f: HandoffListFilter, tenant_id: EntityId) -> Seq<Step> {
    let s = seq![tenant_step(tenant_id)];
    let s = then_opt(s, f.from_agent_id, |id: EntityId| eq_cond("from_agent_id = "@, uuid_v(id)));
    let s = then_opt(s, f.to_agent_id, |id: EntityId| eq_cond("to_agent_id = "@, uuid_v(id)));
    let s = then_opt(s, f.trajectory_id, |id: EntityId| eq_cond("trajectory_id = "@, uuid_v(id)));
    let s = then_opt(s, f.status, |t: String| eq_cond("status = "@, text_v(t@)));
    s
}

impl ListFilter for HandoffListFilter {
    fn build_where(&self, tenant_id: EntityId) -> (r: (Option<String>, Vec<SqlParam>))
        ensures
            opt_view(r.0) == where_clause(numbered(handoff_steps(*self, tenant_id))),
            params_view(r.1@) == step_params(handoff_steps(*self, tenant_id)),
            params_view(r.1@).len() == 1 + present(self.from_agent_id) + present(self.to_agent_id)
                + present(self.trajectory_id) + present(self.status),
            clause_filters_on(opt_view(r.0), params_view(r.1@), "tenant_id = "@, Seq::empty(), uuid_v(tenant_id)),
            self.from_agent_id matches Some(x) ==> clause_filters_on(opt_view(r.0), params_view(r.1@),
                "from_agent_id = "@, Seq::empty(), uuid_v(x)),
            self.to_agent_id matches Some(x) ==> clause_filters_on(opt_view(r.0), params_view(r.1@),
                "to_agent_id = "@, Seq::empty(), uuid_v(x)),
            self.trajectory_id matches Some(x) ==> clause_filters_on(opt_view(r.0), params_view(r.1@),
                "trajectory_id = "@, Seq::empty(), uuid_v(x)),
            self.status matches Some(x) ==> clause_filters_on(opt_view(r.0), params_view(r.1@),
                "status = "@, Seq::empty(), text_v(x@)),
    {
        let mut b = WhereBuilder::new();
        b.add_eq("tenant_id = ", SqlParam::Uuid(tenant_id));
        if let Some(id) = self.from_agent_id {
            b.add_eq("from_agent_id = ", SqlParam::Uuid(id));
        }
        if let Some(id) = self.to_agent_id {
            b.add_eq("to_agent_id = ", SqlParam::Uuid(id));
        }
        if let Some(id) = self.trajectory_id {
            b.add_eq("trajectory_id = ", SqlParam::Uuid(id));
        }
        if let Some(t) = &self.status {
            b.add_eq("status = ", SqlParam::String(t.clone()));
        }
        assert(b.steps() =~= handoff_steps(*self, tenant_id));
        proof {
            let steps = handoff_steps(*self, tenant_id);
            lemma_handoff_filter_conditions(*self, tenant_id);
            lemma_conditions_in_clause(numbered(steps));
            lemma_condition_in_clause(numbered(steps), step_params(steps));
        }
        b.finish()
    }

    fn limit(&self) -> (n: i32)
        ensures
            n == self.limit.unwrap_or(100),
    {
        match self.limit {
            Some(n) => n,
            None => 100,
        }
    }

    fn offset(&self) -> (n: i32)
        ensures
            n == self.offset.unwrap_or(0),
    {
        match self.offset {
            Some(n) => n,
            None => 0,
        }
    }
}

/// Filter for listing delegations.
#[derive(Debug, Clone, Default)]
pub struct DelegationListFilter {
    /// Filter by delegating agent
    pub delegator_agent_id: Option<EntityId>,
    /// Filter by delegated-to agent
    pub delegatee_agent_id: Option<EntityId>,
    /// Filter by status
    pub status: Option<String>,
    /// Filter by trajectory
    pub trajectory_id: Option<EntityId>,
    /// Maximum number of results
    pub limit: Option<i32>,
    /// Offset for pagination
    pub offset: Option<i32>,
}

/// The conditions of a delegation listing: tenant, delegator, delegatee, status, trajectory.
pub open spec fn delegation_steps(f: DelegationListFilter, tenant_id: EntityId) -> Seq<Step> {
    let s = seq![tenant_step(tenant_id)];
    let s = then_opt(s, f.delegator_agent_id, |id: EntityId| eq_cond("from_agent_id = "@, uuid_v(id)));
    let s = then_opt(s, f.delegatee_agent_id, |id: EntityId| eq_cond("to_agent_id = "@, uuid_v(id)));
    let s = then_opt(s, f.status, |t: String| eq_cond("status = "@, text_v(t@)));
    let s = then_opt(s, f.trajectory_id, |id: EntityId| eq_cond("trajectory_id = "@, uuid_v(id)));
    s
}

impl ListFilter for DelegationListFilter {
    fn build_where(&self, tenant_id: EntityId) -> (r: (Option<String>, Vec<SqlParam>))
        ensures
            opt_view(r.0) == where_clause(numbered(delegation_steps(*self, tenant_id))),
            params_view(r.1@) == step_params(delegation_steps(*self, tenant_id)),
            params_view(r.1@).len() == 1 + present(self.delegator_agent_id)
                + present(self.delegatee_agent_id) + present(self.status)
                + present(self.trajectory_id),
            clause_filters_on(opt_view(r.0), params_view(r.1@), "tenant_id = "@, Seq::empty(), uuid_v(tenant_id)),
            self.delegator_agent_id matches Some(x) ==> clause_filters_on(opt_view(r.0), params_view(r.1@),
                "from_agent_id = "@, Seq::empty(), uuid_v(x)),
            self.delegatee_agent_id matches Some(x) ==> clause_filters_on(opt_view(r.0), params_view(r.1@),
                "to_agent_id = "@, Seq::empty(), uuid_v(x)),
            self.status matches Some(x) ==> clause_filters_on(opt_view(r.0), params_view(r.1@),
                "status = "@, Seq::empty(), text_v(x@)),
            self.trajectory_id matches Some(x) ==> clause_filters_on(opt_view(r.0), params_view(r.1@),
                "trajectory_id = "@, Seq::empty(), uuid_v(x)),
    {
        let mut b = WhereBuilder::new();
        b.add_eq("tenant_id = ", SqlParam::Uuid(tenant_id));
        if let Some(id) = self.delegator_agent_id {
            b.add_eq("from_agent_id = ", SqlParam::Uuid(id));
        }
        if let Some(id) = self.delegatee_agent_id {
            b.add_eq("to_agent_id = ", SqlParam::Uuid(id));
        }
        if let Some(t) = &self.status {
            b.add_eq("status = ", SqlParam::String(t.clone()));
        }
        if let Some(id) = self.trajectory_id {
            b.add_eq("trajectory_id = ", SqlParam::Uuid(id));
        }
        assert(b.steps() =~= delegation_steps(*self, tenant_id));
        proof {
            let steps = delegation_steps(*self, tenant_id);
            lemma_delegation_filter_conditions(*self, tenant_id);
            lemma_conditions_in_clause(numbered(steps));
            lemma_condition_in_clause(numbered(steps), step_params(steps));
        }
        b.finish()
    }

    fn limit(&self) -> (n: i32)
        ensures
            n == self.limit.unwrap_or(100),
    {
        match self.limit {
            Some(n) => n,
            None => 100,
        }
    }

    fn offset(&self) -> (n: i32)
        ensures
            n == self.offset.unwrap_or(0),
    {
        match self.offset {
            Some(n) => n,
            None => 0,
        }
    }
}

/// Filter for listing agents.
#[derive(Debug, Clone, Default)]
pub struct AgentListFilter {
    /// Filter by agent type
    pub agent_type: Option<String>,
    /// Filter by status
    pub status: Option<String>,
    /// Filter by current trajectory
    pub trajectory_id: Option<EntityId>,
    /// Only active agents
    pub active_only: Option<bool>,
    /// Maximum number of results
    pub limit: Option<i32>,
    /// Offset for pagination
    pub offset: Option<i32>,
}

/// The conditions of an agent listing: tenant, type, status, current trajectory, then status `active` where only active agents are asked for.
pub open spec fn agent_steps(f: AgentListFilter, tenant_id: EntityId) -> Seq<Step> {
    let s = seq![tenant_step(tenant_id)];
    let s = then_opt(s, f.agent_type, |t: String| eq_cond("agent_type = "@, text_v(t@)));
    let s = then_opt(s, f.status, |t: String| eq_cond("status = "@, text_v(t@)));
    let s = then_opt(s, f.trajectory_id, |id: EntityId| eq_cond("current_trajectory_id = "@, uuid_v(id)));
    let s = then_flag(s, f.active_only, eq_cond("status = "@, text_v("active"@)));
    s
}

impl ListFilter for AgentListFilter {
    fn build_where(&self, tenant_id: EntityId) -> (r: (Option<String>, Vec<SqlParam>))
        ensures
            opt_view(r.0) == where_clause(numbered(agent_steps(*self, tenant_id))),
            params_view(r.1@) == step_params(agent_steps(*self, tenant_id)),
            params_view(r.1@).len() == 1 + present(self.agent_type) + present(self.status)
                + present(self.trajectory_id) + flag_set(self.active_only),
            clause_filters_on(opt_view(r.0), params_view(r.1@), "tenant_id = "@, Seq::empty(), uuid_v(tenant_id)),
            self.agent_type matches Some(x) ==> clause_filters_on(opt_view(r.0), params_view(r.1@),
                "agent_type = "@, Seq::empty(), text_v(x@)),
            self.status matches Some(x) ==> clause_filters_on(opt_view(r.0), params_view(r.1@),
                "status = "@, Seq::empty(), text_v(x@)),
            self.trajectory_id matches Some(x) ==> clause_filters_on(opt_view(r.0), params_view(r.1@),
                "current_trajectory_id = "@, Seq::empty(), uuid_v(x)),
            self.active_only == Some(true) ==> clause_filters_on(opt_view(r.0), params_view(r.1@),
                "status = "@, Seq::empty(), text_v("active"@)),
    {
        let mut b = WhereBuilder::new();
        b.add_eq("tenant_id = ", SqlParam::Uuid(tenant_id));
        if let Some(t) = &self.agent_type {
            b.add_eq("agent_type = ", SqlParam::String(t.clone()));
        }
        if let Some(t) = &self.status {
            b.add_eq("status = ", SqlParam::String(t.clone()));
        }
        if let Some(id) = self.trajectory_id {
            b.add_eq("current_trajectory_id = ", SqlParam::Uuid(id));
        }
        if self.active_only == Some(true) {
            b.add_eq("status = ", SqlParam::String(owned("active")));
        }
        assert(b.steps() =~= agent_steps(*self, tenant_id));
        proof {
            let steps = agent_steps(*self, tenant_id);
            lemma_agent_filter_conditions(*self, tenant_id);
            lemma_conditions_in_clause(numbered(steps));
            lemma_condition_in_clause(numbered(steps), step_params(steps));
        }
        b.finish()
    }

    fn limit(&self) -> (n: i32)
        ensures
            n == self.limit.unwrap_or(100),
    {
        match self.limit {
            Some(n) => n,
            None => 100,
        }
    }

    fn offset(&self) -> (n: i32)
        ensures
            n == self.offset.unwrap_or(0),
    {
        match self.offset {
            Some(n) => n,
            None => 0,
        }
    }
}

/// Filter for listing trajectories.
#[derive(Debug, Clone, Default)]
pub struct TrajectoryListFilter {
    /// Filter by status
    pub status: Option<TrajectoryStatus>,
    /// Filter by agent
    pub agent_id: Option<EntityId>,
    /// Filter by parent trajectory
    pub parent_id: Option<EntityId>,
    /// Maximum number of results
    pub limit: Option<i32>,
    /// Offset for pagination
    pub offset: Option<i32>,
}

/// The conditions of a trajectory listing: tenant, status, agent, parent.
pub open spec fn trajectory_steps(f: TrajectoryListFilter, tenant_id: EntityId) -> Seq<Step> {
    let s = seq![tenant_step(tenant_id)];
    let s = then_opt(s, f.status, |s: TrajectoryStatus| eq_cond("status = "@, text_v(trajectory_status_name(s))));
    let s = then_opt(s, f.agent_id, |id: EntityId| eq_cond("agent_id = "@, uuid_v(id)));
    let s = then_opt(s, f.parent_id, |id: EntityId| eq_cond("parent_trajectory_id = "@, uuid_v(id)));
    s
}

impl ListFilter for TrajectoryListFilter {
    fn build_where(&self, tenant_id: EntityId) -> (r: (Option<String>, Vec<SqlParam>))
        ensures
            opt_view(r.0) == where_clause(numbered(trajectory_steps(*self, tenant_id))),
            params_view(r.1@) == step_params(trajectory_steps(*self, tenant_id)),
            params_view(r.1@).len() == 1 + present(self.status) + present(self.agent_id)
                + present(self.parent_id),
            clause_filters_on(opt_view(r.0), params_view(r.1@), "tenant_id = "@, Seq::empty(), uuid_v(tenant_id)),
            self.status matches Some(x) ==> clause_filters_on(opt_view(r.0), params_view(r.1@),
                "status = "@, Seq::empty(), text_v(trajectory_status_name(x))),
            self.agent_id matches Some(x) ==> clause_filters_on(opt_view(r.0), params_view(r.1@),
                "agent_id = "@, Seq::empty(), uuid_v(x)),
            self.parent_id matches Some(x) ==> clause_filters_on(opt_view(r.0), params_view(r.1@),
                "parent_trajectory_id = "@, Seq::empty(), uuid_v(x)),
    {
        let mut b = WhereBuilder::new();
        b.add_eq("tenant_id = ", SqlParam::Uuid(tenant_id));
        if let Some(s) = &self.status {
            b.add_eq("status = ", SqlParam::String(owned(s.as_str())));
        }
        if let Some(id) = self.agent_id {
            b.add_eq("agent_id = ", SqlParam::Uuid(id));
        }
        if let Some(id) = self.parent_id {
            b.add_eq("parent_trajectory_id = ", SqlParam::Uuid(id));
        }
        assert(b.steps() =~= trajectory_steps(*self, tenant_id));
        proof {
            let steps = trajectory_steps(*self, tenant_id);
            lemma_trajectory_filter_conditions(*self, tenant_id);
            lemma_conditions_in_clause(numbered(steps));
            lemma_condition_in_clause(numbered(steps), step_params(steps));
        }
        b.finish()
    }

    fn limit(&self) -> (n: i32)
        ensures
            n == self.limit.unwrap_or(100),
    {
        match self.limit {
            Some(n) => n,
            None => 100,
        }
    }

    fn offset(&self) -> (n: i32)
        ensures
            n == self.offset.unwrap_or(0),
    {
        match self.offset {
            Some(n) => n,
            None => 0,
        }
    }
}

/// Filter for listing artifacts.
#[derive(Debug, Clone, Default)]
pub struct ArtifactListFilter {
    /// Filter by trajectory
    pub trajectory_id: Option<EntityId>,
    /// Filter by scope
    pub scope_id: Option<EntityId>,
    /// Filter by artifact type
    pub artifact_type: Option<ArtifactType>,
    /// Maximum number of results
    pub limit: Option<i32>,
    /// Offset for pagination
    pub offset: Option<i32>,
}

/// The conditions of an artifact listing: tenant, trajectory, scope, type.
pub open spec fn artifact_steps(f: ArtifactListFilter, tenant_id: EntityId) -> Seq<Step> {
    let s = seq![tenant_step(tenant_id)];
    let s = then_opt(s, f.trajectory_id, |id: EntityId| eq_cond("trajectory_id = "@, uuid_v(id)));
    let s = then_opt(s, f.scope_id, |id: EntityId| eq_cond("scope_id = "@, uuid_v(id)));
    let s = then_opt(s, f.artifact_type, |t: ArtifactType| eq_cond("artifact_type = "@, text_v(artifact_type_name(t))));
    s
}

impl ListFilter for ArtifactListFilter {
    fn build_where(&self, tenant_id: EntityId) -> (r: (Option<String>, Vec<SqlParam>))
        ensures
            opt_view(r.0) == where_clause(numbered(artifact_steps(*self, tenant_id))),
            params_view(r.1@) == step_params(artifact_steps(*self, tenant_id)),
            params_view(r.1@).len() == 1 + present(self.trajectory_id) + present(self.scope_id)
                + present(self.artifact_type),
            clause_filters_on(opt_view(r.0), params_view(r.1@), "tenant_id = "@, Seq::empty(), uuid_v(tenant_id)),
            self.trajectory_id matches Some(x) ==> clause_filters_on(opt_view(r.0), params_view(r.1@),
                "trajectory_id = "@, Seq::empty(), uuid_v(x)),
            self.scope_id matches Some(x) ==> clause_filters_on(opt_view(r.0), params_view(r.1@),
                "scope_id = "@, Seq::empty(), uuid_v(x)),
            self.artifact_type matches Some(x) ==> clause_filters_on(opt_view(r.0), params_view(r.1@),
                "artifact_type = "@, Seq::empty(), text_v(artifact_type_name(x))),
    {
        let mut b = WhereBuilder::new();
        b.add_eq("tenant_id = ", SqlParam::Uuid(tenant_id));
        if let Some(id) = self.trajectory_id {
            b.add_eq("trajectory_id = ", SqlParam::Uuid(id));
        }
        if let Some(id) = self.scope_id {
            b.add_eq("scope_id = ", SqlParam::Uuid(id));
        }
        if let Some(t) = &self.artifact_type {
            b.add_eq("artifact_type = ", SqlParam::String(owned(t.as_str())));
        }
        assert(b.steps() =~= artifact_steps(*self, tenant_id));
        proof {
            let steps = artifact_steps(*self, tenant_id);
            lemma_artifact_filter_conditions(*self, tenant_id);
            lemma_conditions_in_clause(numbered(steps));
            lemma_condition_in_clause(numbered(steps), step_params(steps));
        }
        b.finish()
    }

    fn limit(&self) -> (n: i32)
        ensures
            n == self.limit.unwrap_or(100),
    {
        match self.limit {
            Some(n) => n,
            None => 100,
        }
    }

    fn offset(&self) -> (n: i32)
        ensures
            n == self.offset.unwrap_or(0),
    {
        match self.offset {
            Some(n) => n,
            None => 0,
        }
    }
}

/// The JSON array holding the text of one UUID: `["<uuid>"]`.
pub open spec fn uuid_array_json(id: EntityId) -> Seq<char> {
    "[\""@ + uuid_text(id) + "\"]"@
}


/// Filter for listing notes.
#[derive(Debug, Clone, Default)]
pub struct NoteListFilter {
    /// Filter by note type
    pub note_type: Option<NoteType>,
    /// Notes drawn from this trajectory
    pub source_trajectory_id: Option<EntityId>,
    /// Maximum number of results
    pub limit: Option<i32>,
    /// Offset for pagination
    pub offset: Option<i32>,
}

/// The conditions of a note listing: tenant, type, source trajectory among the note's sources.
pub open spec fn note_steps(f: NoteListFilter, tenant_id: EntityId) -> Seq<Step> {
    let s = seq![tenant_step(tenant_id)];
    let s = then_opt(s, f.note_type, |t: NoteType| eq_cond("note_type = "@, text_v(note_type_name(t))));
    let s = then_opt(s, f.source_trajectory_id, |id: EntityId| cond("source_trajectory_ids @> "@, "::jsonb"@, json_v(uuid_array_json(id))));
    s
}

impl ListFilter for NoteListFilter {
    fn build_where(&self, tenant_id: EntityId) -> (r: (Option<String>, Vec<SqlParam>))
        ensures
            opt_view(r.0) == where_clause(numbered(note_steps(*self, tenant_id))),
            params_view(r.1@) == step_params(note_steps(*self, tenant_id)),
            params_view(r.1@).len() == 1 + present(self.note_type) + present(self.source_trajectory_id),
            clause_filters_on(opt_view(r.0), params_view(r.1@), "tenant_id = "@, Seq::empty(), uuid_v(tenant_id)),
            self.note_type matches Some(x) ==> clause_filters_on(opt_view(r.0), params_view(r.1@),
                "note_type = "@, Seq::empty(), text_v(note_type_name(x))),
            self.source_trajectory_id matches Some(x) ==> clause_filters_on(opt_view(r.0), params_view(r.1@),
                "source_trajectory_ids @> "@, "::jsonb"@, json_v(uuid_array_json(x))),
    {
        let mut b = WhereBuilder::new();
        b.add_eq("tenant_id = ", SqlParam::Uuid(tenant_id));
        if let Some(t) = &self.note_type {
            b.add_eq("note_type = ", SqlParam::String(owned(t.as_str())));
        }
        if let Some(id) = self.source_trajectory_id {
            let mut json = owned("[\"");
            let text = uuid_to_string(id);
            push_str(&mut json, text.as_str());
            push_str(&mut json, "\"]");
            b.add("source_trajectory_ids @> ", "::jsonb", SqlParam::Json(json));
        }
        assert(b.steps() =~= note_steps(*self, tenant_id));
        proof {
            let steps = note_steps(*self, tenant_id);
            lemma_note_filter_conditions(*self, tenant_id);
            lemma_conditions_in_clause(numbered(steps));
            lemma_condition_in_clause(numbered(steps), step_params(steps));
        }
        b.finish()
    }

    fn limit(&self) -> (n: i32)
        ensures
            n == self.limit.unwrap_or(100),
    {
        match self.limit {
            Some(n) => n,
            None => 100,
        }
    }

    fn offset(&self) -> (n: i32)
        ensures
            n == self.offset.unwrap_or(0),
    {
        match self.offset {
            Some(n) => n,
            None => 0,
        }
    }
}

/// Filter for listing scopes.
#[derive(Debug, Clone, Default)]
pub struct ScopeListFilter {
    /// Filter by trajectory
    pub trajectory_id: Option<EntityId>,
    /// Filter by activity
    pub is_active: Option<bool>,
    /// Maximum number of results
    pub limit: Option<i32>,
    /// Offset for pagination
    pub offset: Option<i32>,
}

/// The conditions of a scope listing: tenant, trajectory, activity.
pub open spec fn scope_steps(f: ScopeListFilter, tenant_id: EntityId) -> Seq<Step> {
    let s = seq![tenant_step(tenant_id)];
    let s = then_opt(s, f.trajectory_id, |id: EntityId| eq_cond("trajectory_id = "@, uuid_v(id)));
    let s = then_opt(s, f.is_active, |v: bool| eq_cond("is_active = "@, bool_v(v)));
    s
}

impl ListFilter for ScopeListFilter {
    fn build_where(&self, tenant_id: EntityId) -> (r: (Option<String>, Vec<SqlParam>))
        ensures
            opt_view(r.0) == where_clause(numbered(scope_steps(*self, tenant_id))),
            params_view(r.1@) == step_params(scope_steps(*self, tenant_id)),
            params_view(r.1@).len() == 1 + present(self.trajectory_id) + present(self.is_active),
            clause_filters_on(opt_view(r.0), params_view(r.1@), "tenant_id = "@, Seq::empty(), uuid_v(tenant_id)),
            self.trajectory_id matches Some(x) ==> clause_filters_on(opt_view(r.0), params_view(r.1@),
                "trajectory_id = "@, Seq::empty(), uuid_v(x)),
            self.is_active matches Some(x) ==> clause_filters_on(opt_view(r.0), params_view(r.1@),
                "is_active = "@, Seq::empty(), bool_v(x)),
    {
        let mut b = WhereBuilder::new();
        b.add_eq("tenant_id = ", SqlParam::Uuid(tenant_id));
        if let Some(id) = self.trajectory_id {
            b.add_eq("trajectory_id = ", SqlParam::Uuid(id));
        }
        if let Some(v) = self.is_active {
            b.add_eq("is_active = ", SqlParam::Bool(v));
        }
        assert(b.steps() =~= scope_steps(*self, tenant_id));
        proof {
            let steps = scope_steps(*self, tenant_id);
            lemma_scope_filter_conditions(*self, tenant_id);
            lemma_conditions_in_clause(numbered(steps));
            lemma_condition_in_clause(numbered(steps), step_params(steps));
        }
        b.finish()
    }

    fn limit(&self) -> (n: i32)
        ensures
            n == self.limit.unwrap_or(100),
    {
        match self.limit {
            Some(n) => n,
            None => 100,
        }
    }

    fn offset(&self) -> (n: i32)
        ensures
            n == self.offset.unwrap_or(0),
    {
        match self.offset {
            Some(n) => n,
            None => 0,
        }
    }
}

/// Filter for listing turns.
#[derive(Debug, Clone, Default)]
pub struct TurnListFilter {
    /// Filter by scope
    pub scope_id: Option<EntityId>,
    /// Maximum number of results
    pub limit: Option<i32>,
    /// Offset for pagination
    pub offset: Option<i32>,
}

/// The conditions of a turn listing: tenant, scope.
pub open spec fn turn_steps(f: TurnListFilter, tenant_id: EntityId) -> Seq<Step> {
    let s = seq![tenant_step(tenant_id)];
    let s = then_opt(s, f.scope_id, |id: EntityId| eq_cond("scope_id = "@, uuid_v(id)));
    s
}

impl ListFilter for TurnListFilter {
    fn build_where(&self, tenant_id: EntityId) -> (r: (Option<String>, Vec<SqlParam>))
        ensures
            opt_view(r.0) == where_clause(numbered(turn_steps(*self, tenant_id))),
            params_view(r.1@) == step_params(turn_steps(*self, tenant_id)),
            params_view(r.1@).len() == 1 + present(self.scope_id),
            clause_filters_on(opt_view(r.0), params_view(r.1@), "tenant_id = "@, Seq::empty(), uuid_v(tenant_id)),
            self.scope_id matches Some(x) ==> clause_filters_on(opt_view(r.0), params_view(r.1@),
                "scope_id = "@, Seq::empty(), uuid_v(x)),
    {
        let mut b = WhereBuilder::new();
        b.add_eq("tenant_id = ", SqlParam::Uuid(tenant_id));
        if let Some(id) = self.scope_id {
            b.add_eq("scope_id = ", SqlParam::Uuid(id));
        }
        assert(b.steps() =~= turn_steps(*self, tenant_id));
        proof {
            let steps = turn_steps(*self, tenant_id);
            lemma_turn_filter_conditions(*self, tenant_id);
            lemma_conditions_in_clause(numbered(steps));
            lemma_condition_in_clause(numbered(steps), step_params(steps));
        }
        b.finish()
    }

    fn limit(&self) -> (n: i32)
        ensures
            n == self.limit.unwrap_or(100),
    {
        match self.limit {
            Some(n) => n,
            None => 100,
        }
    }

    fn offset(&self) -> (n: i32)
        ensures
            n == self.offset.unwrap_or(0),
    {
        match self.offset {
            Some(n) => n,
            None => 0,
        }
    }
}

/// Filter for listing summarization policies.
#[derive(Debug, Clone, Default)]
pub struct SummarizationPolicyListFilter {
    /// Filter by trajectory
    pub trajectory_id: Option<EntityId>,
    /// Maximum number of results
    pub limit: Option<i32>,
    /// Offset for pagination
    pub offset: Option<i32>,
}

/// The conditions of a summarization policy listing: tenant, trajectory.
pub open spec fn summarization_policy_steps(f: SummarizationPolicyListFilter, tenant_id: EntityId) -> Seq<Step> {
    let s = seq![tenant_step(tenant_id)];
    let s = then_opt(s, f.trajectory_id, |id: EntityId| eq_cond("trajectory_id = "@, uuid_v(id)));
    s
}

impl ListFilter for SummarizationPolicyListFilter {
    fn build_where(&self, tenant_id: EntityId) -> (r: (Option<String>, Vec<SqlParam>))
        ensures
            opt_view(r.0) == where_clause(numbered(summarization_policy_steps(*self, tenant_id))),
            params_view(r.1@) == step_params(summarization_policy_steps(*self, tenant_id)),
            params_view(r.1@).len() == 1 + present(self.trajectory_id),
            clause_filters_on(opt_view(r.0), params_view(r.1@), "tenant_id = "@, Seq::empty(), uuid_v(tenant_id)),
            self.trajectory_id matches Some(x) ==> clause_filters_on(opt_view(r.0), params_view(r.1@),
                "trajectory_id = "@, Seq::empty(), uuid_v(x)),
    {
        let mut b = WhereBuilder::new();
        b.add_eq("tenant_id = ", SqlParam::Uuid(tenant_id));
        if let Some(id) = self.trajectory_id {
            b.add_eq("trajectory_id = ", SqlParam::Uuid(id));
        }
        assert(b.steps() =~= summarization_policy_steps(*self, tenant_id));
        proof {
            let steps = summarization_policy_steps(*self, tenant_id);
            lemma_summarization_policy_filter_conditions(*self, tenant_id);
            lemma_conditions_in_clause(numbered(steps));
            lemma_condition_in_clause(numbered(steps), step_params(steps));
        }
        b.finish()
    }

    fn limit(&self) -> (n: i32)
        ensures
            n == self.limit.unwrap_or(100),
    {
        match self.limit {
            Some(n) => n,
            None => 100,
        }
    }

    fn offset(&self) -> (n: i32)
        ensures
            n == self.offset.unwrap_or(0),
    {
        match self.offset {
            Some(n) => n,
            None => 0,
        }
    }
}

/// A tenant listing filters on each field that is set, and on nothing else: its
/// conditions are, for each field that is present, one condition naming that
/// field's column whose parameter is the field's value; there are no other
/// conditions and no other parameters.
pub proof fn lemma_tenant_filter_conditions(f: TenantListFilter, tenant_id: EntityId)
    ensures
        ({
            let conds = numbered(tenant_steps(f, tenant_id));
            let params = step_params(tenant_steps(f, tenant_id));
            &&& conds.len() == present(f.status) + present(f.domain)
            &&& params.len() == present(f.status) + present(f.domain)
            &&& f.status matches Some(x)
                ==> has_condition(conds, params, "status = "@, Seq::empty(), text_v(tenant_status_name(x)))
            &&& f.domain matches Some(x)
                ==> has_condition(conds, params, "domain = "@, Seq::empty(), text_v(x@))
        }),
{
    broadcast use vstd::seq_lib::lemma_seq_contains_after_push;
    let steps = tenant_steps(f, tenant_id);
    lemma_push_step();
    lemma_numbered_len(steps);
    lemma_steps_rendered(steps);
    let conds = numbered(steps);
    let params = step_params(steps);
    assert(conds.len() == present(f.status) + present(f.domain));
    assert(params.len() == present(f.status) + present(f.domain));
    if let Some(x) = f.status {
        assert(steps.contains(eq_cond("status = "@, text_v(tenant_status_name(x)))));
        assert(has_condition(conds, params, "status = "@, Seq::empty(), text_v(tenant_status_name(x))));
    }
    if let Some(x) = f.domain {
        assert(steps.contains(eq_cond("domain = "@, text_v(x@))));
        assert(has_condition(conds, params, "domain = "@, Seq::empty(), text_v(x@)));
    }
}

/// A webhook listing filters on the tenant and on each field that is set, and
/// on nothing else: its conditions are `tenant_id = $k` with the tenant as
/// parameter and, for each field that is present, one condition naming that
/// field's column whose parameter is the field's value; there are no other
/// conditions and no other parameters.
pub proof fn lemma_webhook_filter_conditions(f: WebhookListFilter, tenant_id: EntityId)
    ensures
        ({
            let conds = numbered(webhook_steps(f, tenant_id));
            let params = step_params(webhook_steps(f, tenant_id));
            &&& conds.len() == 1 + present(f.is_active) + present(f.event)
            &&& params.len() == 1 + present(f.is_active) + present(f.event)
            &&& has_condition(conds, params, "tenant_id = "@, Seq::empty(), uuid_v(tenant_id))
            &&& f.is_active matches Some(x)
                ==> has_condition(conds, params, "is_active = "@, Seq::empty(), bool_v(x))
            &&& f.event matches Some(x)
                ==> has_condition(conds, params, "events @> ARRAY["@, "]::text[]"@, text_v(x@))
        }),
{
    broadcast use vstd::seq_lib::lemma_seq_contains_after_push;
    let steps = webhook_steps(f, tenant_id);
    lemma_push_step();
    lemma_numbered_len(steps);
    lemma_steps_rendered(steps);
    assert(seq![tenant_step(tenant_id)] =~= Seq::<Step>::empty().push(tenant_step(tenant_id)));
    let conds = numbered(steps);
    let params = step_params(steps);
    assert(conds.len() == 1 + present(f.is_active) + present(f.event));
    assert(params.len() == 1 + present(f.is_active) + present(f.event));
    assert(steps.contains(tenant_step(tenant_id)));
    if let Some(x) = f.is_active {
        assert(steps.contains(eq_cond("is_active = "@, bool_v(x))));
        assert(has_condition(conds, params, "is_active = "@, Seq::empty(), bool_v(x)));
    }
    if let Some(x) = f.event {
        assert(steps.contains(cond("events @> ARRAY["@, "]::text[]"@, text_v(x@))));
        assert(has_condition(conds, params, "events @> ARRAY["@, "]::text[]"@, text_v(x@)));
    }
}

/// An API key listing filters on the tenant and on each field that is set, and
/// on nothing else: its conditions are `tenant_id = $k` with the tenant as
/// parameter and, for each field that is present, one condition naming that
/// field's column whose parameter is the field's value; there are no other
/// conditions and no other parameters.
pub proof fn lemma_api_key_filter_conditions(f: ApiKeyListFilter, tenant_id: EntityId)
    ensures
        ({
            let conds = numbered(api_key_steps(f, tenant_id));
            let params = step_params(api_key_steps(f, tenant_id));
            &&& conds.len() == 1 + present(f.is_active) + present(f.name)
            &&& params.len() == 1 + present(f.is_active) + present(f.name)
            &&& has_condition(conds, params, "tenant_id = "@, Seq::empty(), uuid_v(tenant_id))
            &&& f.is_active matches Some(x)
                ==> has_condition(conds, params, "is_active = "@, Seq::empty(), bool_v(x))
            &&& f.name matches Some(x)
                ==> has_condition(conds, params, "name ILIKE "@, Seq::empty(), text_v("%"@ + x@ + "%"@))
        }),
{
    broadcast use vstd::seq_lib::lemma_seq_contains_after_push;
    let steps = api_key_steps(f, tenant_id);
    lemma_push_step();
    lemma_numbered_len(steps);
    lemma_steps_rendered(steps);
    assert(seq![tenant_step(tenant_id)] =~= Seq::<Step>::empty().push(tenant_step(tenant_id)));
    let conds = numbered(steps);
    let params = step_params(steps);
    assert(conds.len() == 1 + present(f.is_active) + present(f.name));
    assert(params.len() == 1 + present(f.is_active) + present(f.name));
    assert(steps.contains(tenant_step(tenant_id)));
    if let Some(x) = f.is_active {
        assert(steps.contains(eq_cond("is_active = "@, bool_v(x))));
        assert(has_condition(conds, params, "is_active = "@, Seq::empty(), bool_v(x)));
    }
    if let Some(x) = f.name {
        assert(steps.contains(eq_cond("name ILIKE "@, text_v("%"@ + x@ + "%"@))));
        assert(has_condition(conds, params, "name ILIKE "@, Seq::empty(), text_v("%"@ + x@ + "%"@)));
    }
}

/// An edge listing filters on each field that is set, and on nothing else: its
/// conditions are, for each field that is present, one condition naming that
/// field's column whose parameter is the field's value; there are no other
/// conditions and no other parameters.
pub proof fn lemma_edge_filter_conditions(f: EdgeListFilter, tenant_id: EntityId)
    ensures
        ({
            let conds = numbered(edge_steps(f, tenant_id));
            let params = step_params(edge_steps(f, tenant_id));
            &&& conds.len() == present(f.tenant_id) + present(f.edge_type)
                + present(f.trajectory_id) + present(f.participant_id) + present(f.source_id)
                + present(f.target_id)
            &&& params.len() == present(f.tenant_id) + present(f.edge_type)
                + present(f.trajectory_id) + present(f.participant_id) + present(f.source_id)
                + present(f.target_id)
            &&& f.tenant_id matches Some(x)
                ==> has_condition(conds, params, "tenant_id = "@, Seq::empty(), uuid_v(x))
            &&& f.edge_type matches Some(x)
                ==> has_condition(conds, params, "edge_type = "@, Seq::empty(), text_v(x@))
            &&& f.trajectory_id matches Some(x)
                ==> has_condition(conds, params, "trajectory_id = "@, Seq::empty(), uuid_v(x))
            &&& f.participant_id matches Some(x)
                ==> has_condition(conds, params, "EXISTS (SELECT 1 FROM jsonb_array_elements(participants) p WHERE p->>'entity_id' = "@, ")"@, text_v(uuid_text(x)))
            &&& f.source_id matches Some(x)
                ==> has_condition(conds, params, "EXISTS (SELECT 1 FROM jsonb_array_elements(participants) p WHERE p->>'entity_id' = "@, " AND p->>'role' = 'source')"@, text_v(uuid_text(x)))
            &&& f.target_id matches Some(x)
                ==> has_condition(conds, params, "EXISTS (SELECT 1 FROM jsonb_array_elements(participants) p WHERE p->>'entity_id' = "@, " AND p->>'role' = 'target')"@, text_v(uuid_text(x)))
        }),
{
    broadcast use vstd::seq_lib::lemma_seq_contains_after_push;
    let steps = edge_steps(f, tenant_id);
    lemma_push_step();
    lemma_numbered_len(steps);
    lemma_steps_rendered(steps);
    let conds = numbered(steps);
    let params = step_params(steps);
    assert(conds.len() == present(f.tenant_id) + present(f.edge_type) + present(f.trajectory_id)
        + present(f.participant_id) + present(f.source_id) + present(f.target_id));
    assert(params.len() == present(f.tenant_id) + present(f.edge_type) + present(f.trajectory_id)
        + present(f.participant_id) + present(f.source_id) + present(f.target_id));
    if let Some(x) = f.tenant_id {
        assert(steps.contains(eq_cond("tenant_id = "@, uuid_v(x))));
        assert(has_condition(conds, params, "tenant_id = "@, Seq::empty(), uuid_v(x)));
    }
    if let Some(x) = f.edge_type {
        assert(steps.contains(eq_cond("edge_type = "@, text_v(x@))));
        assert(has_condition(conds, params, "edge_type = "@, Seq::empty(), text_v(x@)));
    }
    if let Some(x) = f.trajectory_id {
        assert(steps.contains(eq_cond("trajectory_id = "@, uuid_v(x))));
        assert(has_condition(conds, params, "trajectory_id = "@, Seq::empty(), uuid_v(x)));
    }
    if let Some(x) = f.participant_id {
        assert(steps.contains(cond("EXISTS (SELECT 1 FROM jsonb_array_elements(participants) p WHERE p->>'entity_id' = "@, ")"@, text_v(uuid_text(x)))));
        assert(has_condition(conds, params, "EXISTS (SELECT 1 FROM jsonb_array_elements(participants) p WHERE p->>'entity_id' = "@, ")"@, text_v(uuid_text(x))));
    }
    if let Some(x) = f.source_id {
        assert(steps.contains(cond("EXISTS (SELECT 1 FROM jsonb_array_elements(participants) p WHERE p->>'entity_id' = "@, " AND p->>'role' = 'source')"@, text_v(uuid_text(x)))));
        assert(has_condition(conds, params, "EXISTS (SELECT 1 FROM jsonb_array_elements(participants) p WHERE p->>'entity_id' = "@, " AND p->>'role' = 'source')"@, text_v(uuid_text(x))));
    }
    if let Some(x) = f.target_id {
        assert(steps.contains(cond("EXISTS (SELECT 1 FROM jsonb_array_elements(participants) p WHERE p->>'entity_id' = "@, " AND p->>'role' = 'target')"@, text_v(uuid_text(x)))));
        assert(has_condition(conds, params, "EXISTS (SELECT 1 FROM jsonb_array_elements(participants) p WHERE p->>'entity_id' = "@, " AND p->>'role' = 'target')"@, text_v(uuid_text(x))));
    }
}

/// A message listing filters on the tenant and on each field that is set, and
/// on nothing else: its conditions are `tenant_id = $k` with the tenant as
/// parameter and, for each field that is present, one condition naming that
/// field's column whose parameter is the field's value, and for each flag that
/// is set its condition; there are no other conditions and no other parameters.
pub proof fn lemma_message_filter_conditions(f: MessageListFilter, tenant_id: EntityId)
    ensures
        ({
            let conds = numbered(message_steps(f, tenant_id));
            let params = step_params(message_steps(f, tenant_id));
            &&& conds.len() == 1 + present(f.message_type) + present(f.from_agent_id)
                + present(f.to_agent_id) + present(f.to_agent_type) + present(f.trajectory_id)
                + present(f.priority) + flag_set(f.undelivered_only)
                + flag_set(f.unacknowledged_only)
            &&& params.len() == 1 + present(f.message_type) + present(f.from_agent_id)
                + present(f.to_agent_id) + present(f.to_agent_type) + present(f.trajectory_id)
                + present(f.priority)
            &&& has_condition(conds, params, "tenant_id = "@, Seq::empty(), uuid_v(tenant_id))
            &&& f.message_type matches Some(x)
                ==> has_condition(conds, params, "message_type = "@, Seq::empty(), text_v(x@))
            &&& f.from_agent_id matches Some(x)
                ==> has_condition(conds, params, "from_agent_id = "@, Seq::empty(), uuid_v(x))
            &&& f.to_agent_id matches Some(x)
                ==> has_condition(conds, params, "to_agent_id = "@, Seq::empty(), uuid_v(x))
            &&& f.to_agent_type matches Some(x)
                ==> has_condition(conds, params, "to_agent_type = "@, Seq::empty(), text_v(x@))
            &&& f.trajectory_id matches Some(x)
                ==> has_condition(conds, params, "trajectory_id = "@, Seq::empty(), uuid_v(x))
            &&& f.priority matches Some(x)
                ==> has_condition(conds, params, "priority = "@, Seq::empty(), text_v(x@))
            &&& f.undelivered_only == Some(true) ==> conds.contains("delivered_at IS NULL"@)
            &&& f.unacknowledged_only == Some(true) ==> conds.contains("acknowledged_at IS NULL"@)
        }),
{
    broadcast use vstd::seq_lib::lemma_seq_contains_after_push;
    let steps = message_steps(f, tenant_id);
    lemma_push_step();
    lemma_numbered_len(steps);
    lemma_steps_rendered(steps);
    assert(seq![tenant_step(tenant_id)] =~= Seq::<Step>::empty().push(tenant_step(tenant_id)));
    let conds = numbered(steps);
    let params = step_params(steps);
    assert(conds.len() == 1 + present(f.message_type) + present(f.from_agent_id)
        + present(f.to_agent_id) + present(f.to_agent_type) + present(f.trajectory_id)
        + present(f.priority) + flag_set(f.undelivered_only) + flag_set(f.unacknowledged_only));
    assert(params.len() == 1 + present(f.message_type) + present(f.from_agent_id)
        + present(f.to_agent_id) + present(f.to_agent_type) + present(f.trajectory_id)
        + present(f.priority));
    assert(steps.contains(tenant_step(tenant_id)));
    if let Some(x) = f.message_type {
        assert(steps.contains(eq_cond("message_type = "@, text_v(x@))));
        assert(has_condition(conds, params, "message_type = "@, Seq::empty(), text_v(x@)));
    }
    if let Some(x) = f.from_agent_id {
        assert(steps.contains(eq_cond("from_agent_id = "@, uuid_v(x))));
        assert(has_condition(conds, params, "from_agent_id = "@, Seq::empty(), uuid_v(x)));
    }
    if let Some(x) = f.to_agent_id {
        assert(steps.contains(eq_cond("to_agent_id = "@, uuid_v(x))));
        assert(has_condition(conds, params, "to_agent_id = "@, Seq::empty(), uuid_v(x)));
    }
    if let Some(x) = f.to_agent_type {
        assert(steps.contains(eq_cond("to_agent_type = "@, text_v(x@))));
        assert(has_condition(conds, params, "to_agent_type = "@, Seq::empty(), text_v(x@)));
    }
    if let Some(x) = f.trajectory_id {
        assert(steps.contains(eq_cond("trajectory_id = "@, uuid_v(x))));
        assert(has_condition(conds, params, "trajectory_id = "@, Seq::empty(), uuid_v(x)));
    }
    if let Some(x) = f.priority {
        assert(steps.contains(eq_cond("priority = "@, text_v(x@))));
        assert(has_condition(conds, params, "priority = "@, Seq::empty(), text_v(x@)));
    }
    if f.undelivered_only == Some(true) {
        assert(steps.contains(plain("delivered_at IS NULL"@)));
        assert("delivered_at IS NULL"@ + Seq::<char>::empty() =~= "delivered_at IS NULL"@);
    }
    if f.unacknowledged_only == Some(true) {
        assert(steps.contains(plain("acknowledged_at IS NULL"@)));
        assert("acknowledged_at IS NULL"@ + Seq::<char>::empty() =~= "acknowledged_at IS NULL"@);
    }
}

/// A lock listing filters on the tenant and on each field that is set, and on
/// nothing else: its conditions are `tenant_id = $k` with the tenant as
/// parameter and, for each field that is present, one condition naming that
/// field's column whose parameter is the field's value; there are no other
/// conditions and no other parameters.
pub proof fn lemma_lock_filter_conditions(f: LockListFilter, tenant_id: EntityId)
    ensures
        ({
            let conds = numbered(lock_steps(f, tenant_id));
            let params = step_params(lock_steps(f, tenant_id));
            &&& conds.len() == 1 + present(f.holder_agent_id) + present(f.resource_type)
                + present(f.resource_id) + present(f.mode)
            &&& params.len() == 1 + present(f.holder_agent_id) + present(f.resource_type)
                + present(f.resource_id) + present(f.mode)
            &&& has_condition(conds, params, "tenant_id = "@, Seq::empty(), uuid_v(tenant_id))
            &&& f.holder_agent_id matches Some(x)
                ==> has_condition(conds, params, "holder_agent_id = "@, Seq::empty(), uuid_v(x))
            &&& f.resource_type matches Some(x)
                ==> has_condition(conds, params, "resource_type = "@, Seq::empty(), text_v(x@))
            &&& f.resource_id matches Some(x)
                ==> has_condition(conds, params, "resource_id = "@, Seq::empty(), uuid_v(x))
            &&& f.mode matches Some(x)
                ==> has_condition(conds, params, "mode = "@, Seq::empty(), text_v(x@))
        }),
{
    broadcast use vstd::seq_lib::lemma_seq_contains_after_push;
    let steps = lock_steps(f, tenant_id);
    lemma_push_step();
    lemma_numbered_len(steps);
    lemma_steps_rendered(steps);
    assert(seq![tenant_step(tenant_id)] =~= Seq::<Step>::empty().push(tenant_step(tenant_id)));
    let conds = numbered(steps);
    let params = step_params(steps);
    assert(conds.len() == 1 + present(f.holder_agent_id) + present(f.resource_type)
        + present(f.resource_id) + present(f.mode));
    assert(params.len() == 1 + present(f.holder_agent_id) + present(f.resource_type)
        + present(f.resource_id) + present(f.mode));
    assert(steps.contains(tenant_step(tenant_id)));
    if let Some(x) = f.holder_agent_id {
        assert(steps.contains(eq_cond("holder_agent_id = "@, uuid_v(x))));
        assert(has_condition(conds, params, "holder_agent_id = "@, Seq::empty(), uuid_v(x)));
    }
    if let Some(x) = f.resource_type {
        assert(steps.contains(eq_cond("resource_type = "@, text_v(x@))));
        assert(has_condition(conds, params, "resource_type = "@, Seq::empty(), text_v(x@)));
    }
    if let Some(x) = f.resource_id {
        assert(steps.contains(eq_cond("resource_id = "@, uuid_v(x))));
        assert(has_condition(conds, params, "resource_id = "@, Seq::empty(), uuid_v(x)));
    }
    if let Some(x) = f.mode {
        assert(steps.contains(eq_cond("mode = "@, text_v(x@))));
        assert(has_condition(conds, params, "mode = "@, Seq::empty(), text_v(x@)));
    }
}

/// A handoff listing filters on the tenant and on each field that is set, and
/// on nothing else: its conditions are `tenant_id = $k` with the tenant as
/// parameter and, for each field that is present, one condition naming that
/// field's column whose parameter is the field's value; there are no other
/// conditions and no other parameters.
pub proof fn lemma_handoff_filter_conditions(f: HandoffListFilter, tenant_id: EntityId)
    ensures
        ({
            let conds = numbered(handoff_steps(f, tenant_id));
            let params = step_params(handoff_steps(f, tenant_id));
            &&& conds.len() == 1 + present(f.from_agent_id) + present(f.to_agent_id)
                + present(f.trajectory_id) + present(f.status)
            &&& params.len() == 1 + present(f.from_agent_id) + present(f.to_agent_id)
                + present(f.trajectory_id) + present(f.status)
            &&& has_condition(conds, params, "tenant_id = "@, Seq::empty(), uuid_v(tenant_id))
            &&& f.from_agent_id matches Some(x)
                ==> has_condition(conds, params, "from_agent_id = "@, Seq::empty(), uuid_v(x))
            &&& f.to_agent_id matches Some(x)
                ==> has_condition(conds, params, "to_agent_id = "@, Seq::empty(), uuid_v(x))
            &&& f.trajectory_id matches Some(x)
                ==> has_condition(conds, params, "trajectory_id = "@, Seq::empty(), uuid_v(x))
            &&& f.status matches Some(x)
                ==> has_condition(conds, params, "status = "@, Seq::empty(), text_v(x@))
        }),
{
    broadcast use vstd::seq_lib::lemma_seq_contains_after_push;
    let steps = handoff_steps(f, tenant_id);
    lemma_push_step();
    lemma_numbered_len(steps);
    lemma_steps_rendered(steps);
    assert(seq![tenant_step(tenant_id)] =~= Seq::<Step>::empty().push(tenant_step(tenant_id)));
    let conds = numbered(steps);
    let params = step_params(steps);
    assert(conds.len() == 1 + present(f.from_agent_id) + present(f.to_agent_id)
        + present(f.trajectory_id) + present(f.status));
    assert(params.len() == 1 + present(f.from_agent_id) + present(f.to_agent_id)
        + present(f.trajectory_id) + present(f.status));
    assert(steps.contains(tenant_step(tenant_id)));
    if let Some(x) = f.from_agent_id {
        assert(steps.contains(eq_cond("from_agent_id = "@, uuid_v(x))));
        assert(has_condition(conds, params, "from_agent_id = "@, Seq::empty(), uuid_v(x)));
    }
    if let Some(x) = f.to_agent_id {
        assert(steps.contains(eq_cond("to_agent_id = "@, uuid_v(x))));
        assert(has_condition(conds, params, "to_agent_id = "@, Seq::empty(), uuid_v(x)));
    }
    if let Some(x) = f.trajectory_id {
        assert(steps.contains(eq_cond("trajectory_id = "@, uuid_v(x))));
        assert(has_condition(conds, params, "trajectory_id = "@, Seq::empty(), uuid_v(x)));
    }
    if let Some(x) = f.status {
        assert(steps.contains(eq_cond("status = "@, text_v(x@))));
        assert(has_condition(conds, params, "status = "@, Seq::empty(), text_v(x@)));
    }
}

/// A delegation listing filters on the tenant and on each field that is set,
/// and on nothing else: its conditions are `tenant_id = $k` with the tenant as
/// parameter and, for each field that is present, one condition naming that
/// field's column whose parameter is the field's value; there are no other
/// conditions and no other parameters.
pub proof fn lemma_delegation_filter_conditions(f: DelegationListFilter, tenant_id: EntityId)
    ensures
        ({
            let conds = numbered(delegation_steps(f, tenant_id));
            let params = step_params(delegation_steps(f, tenant_id));
            &&& conds.len() == 1 + present(f.delegator_agent_id) + present(f.delegatee_agent_id)
                + present(f.status) + present(f.trajectory_id)
            &&& params.len() == 1 + present(f.delegator_agent_id) + present(f.delegatee_agent_id)
                + present(f.status) + present(f.trajectory_id)
            &&& has_condition(conds, params, "tenant_id = "@, Seq::empty(), uuid_v(tenant_id))
            &&& f.delegator_agent_id matches Some(x)
                ==> has_condition(conds, params, "from_agent_id = "@, Seq::empty(), uuid_v(x))
            &&& f.delegatee_agent_id matches Some(x)
                ==> has_condition(conds, params, "to_agent_id = "@, Seq::empty(), uuid_v(x))
            &&& f.status matches Some(x)
                ==> has_condition(conds, params, "status = "@, Seq::empty(), text_v(x@))
            &&& f.trajectory_id matches Some(x)
                ==> has_condition(conds, params, "trajectory_id = "@, Seq::empty(), uuid_v(x))
        }),
{
    broadcast use vstd::seq_lib::lemma_seq_contains_after_push;
    let steps = delegation_steps(f, tenant_id);
    lemma_push_step();
    lemma_numbered_len(steps);
    lemma_steps_rendered(steps);
    assert(seq![tenant_step(tenant_id)] =~= Seq::<Step>::empty().push(tenant_step(tenant_id)));
    let conds = numbered(steps);
    let params = step_params(steps);
    assert(conds.len() == 1 + present(f.delegator_agent_id) + present(f.delegatee_agent_id)
        + present(f.status) + present(f.trajectory_id));
    assert(params.len() == 1 + present(f.delegator_agent_id) + present(f.delegatee_agent_id)
        + present(f.status) + present(f.trajectory_id));
    assert(steps.contains(tenant_step(tenant_id)));
    if let Some(x) = f.delegator_agent_id {
        assert(steps.contains(eq_cond("from_agent_id = "@, uuid_v(x))));
        assert(has_condition(conds, params, "from_agent_id = "@, Seq::empty(), uuid_v(x)));
    }
    if let Some(x) = f.delegatee_agent_id {
        assert(steps.contains(eq_cond("to_agent_id = "@, uuid_v(x))));
        assert(has_condition(conds, params, "to_agent_id = "@, Seq::empty(), uuid_v(x)));
    }
    if let Some(x) = f.status {
        assert(steps.contains(eq_cond("status = "@, text_v(x@))));
        assert(has_condition(conds, params, "status = "@, Seq::empty(), text_v(x@)));
    }
    if let Some(x) = f.trajectory_id {
        assert(steps.contains(eq_cond("trajectory_id = "@, uuid_v(x))));
        assert(has_condition(conds, params, "trajectory_id = "@, Seq::empty(), uuid_v(x)));
    }
}

/// An agent listing filters on the tenant and on each field that is set, and on
/// nothing else: its conditions are `tenant_id = $k` with the tenant as
/// parameter and, for each field that is present, one condition naming that
/// field's column whose parameter is the field's value, and for each flag that
/// is set its condition; there are no other conditions and no other parameters.
pub proof fn lemma_agent_filter_conditions(f: AgentListFilter, tenant_id: EntityId)
    ensures
        ({
            let conds = numbered(agent_steps(f, tenant_id));
            let params = step_params(agent_steps(f, tenant_id));
            &&& conds.len() == 1 + present(f.agent_type) + present(f.status)
                + present(f.trajectory_id) + flag_set(f.active_only)
            &&& params.len() == 1 + present(f.agent_type) + present(f.status)
                + present(f.trajectory_id) + flag_set(f.active_only)
            &&& has_condition(conds, params, "tenant_id = "@, Seq::empty(), uuid_v(tenant_id))
            &&& f.agent_type matches Some(x)
                ==> has_condition(conds, params, "agent_type = "@, Seq::empty(), text_v(x@))
            &&& f.status matches Some(x)
                ==> has_condition(conds, params, "status = "@, Seq::empty(), text_v(x@))
            &&& f.trajectory_id matches Some(x)
                ==> has_condition(conds, params, "current_trajectory_id = "@, Seq::empty(), uuid_v(x))
            &&& f.active_only == Some(true)
                ==> has_condition(conds, params, "status = "@, Seq::empty(), text_v("active"@))
        }),
{
    broadcast use vstd::seq_lib::lemma_seq_contains_after_push;
    let steps = agent_steps(f, tenant_id);
    lemma_push_step();
    lemma_numbered_len(steps);
    lemma_steps_rendered(steps);
    assert(seq![tenant_step(tenant_id)] =~= Seq::<Step>::empty().push(tenant_step(tenant_id)));
    let conds = numbered(steps);
    let params = step_params(steps);
    assert(conds.len() == 1 + present(f.agent_type) + present(f.status) + present(f.trajectory_id)
        + flag_set(f.active_only));
    assert(params.len() == 1 + present(f.agent_type) + present(f.status) + present(f.trajectory_id)
        + flag_set(f.active_only));
    assert(steps.contains(tenant_step(tenant_id)));
    if let Some(x) = f.agent_type {
        assert(steps.contains(eq_cond("agent_type = "@, text_v(x@))));
        assert(has_condition(conds, params, "agent_type = "@, Seq::empty(), text_v(x@)));
    }
    if let Some(x) = f.status {
        assert(steps.contains(eq_cond("status = "@, text_v(x@))));
        assert(has_condition(conds, params, "status = "@, Seq::empty(), text_v(x@)));
    }
    if let Some(x) = f.trajectory_id {
        assert(steps.contains(eq_cond("current_trajectory_id = "@, uuid_v(x))));
        assert(has_condition(conds, params, "current_trajectory_id = "@, Seq::empty(), uuid_v(x)));
    }
    if f.active_only == Some(true) {
        assert(steps.contains(eq_cond("status = "@, text_v("active"@))));
        assert(has_condition(conds, params, "status = "@, Seq::empty(), text_v("active"@)));
    }
}

/// A trajectory listing filters on the tenant and on each field that is set,
/// and on nothing else: its conditions are `tenant_id = $k` with the tenant as
/// parameter and, for each field that is present, one condition naming that
/// field's column whose parameter is the field's value; there are no other
/// conditions and no other parameters.
pub proof fn lemma_trajectory_filter_conditions(f: TrajectoryListFilter, tenant_id: EntityId)
    ensures
        ({
            let conds = numbered(trajectory_steps(f, tenant_id));
            let params = step_params(trajectory_steps(f, tenant_id));
            &&& conds.len() == 1 + present(f.status) + present(f.agent_id) + present(f.parent_id)
            &&& params.len() == 1 + present(f.status) + present(f.agent_id) + present(f.parent_id)
            &&& has_condition(conds, params, "tenant_id = "@, Seq::empty(), uuid_v(tenant_id))
            &&& f.status matches Some(x)
                ==> has_condition(conds, params, "status = "@, Seq::empty(), text_v(trajectory_status_name(x)))
            &&& f.agent_id matches Some(x)
                ==> has_condition(conds, params, "agent_id = "@, Seq::empty(), uuid_v(x))
            &&& f.parent_id matches Some(x)
                ==> has_condition(conds, params, "parent_trajectory_id = "@, Seq::empty(), uuid_v(x))
        }),
{
    broadcast use vstd::seq_lib::lemma_seq_contains_after_push;
    let steps = trajectory_steps(f, tenant_id);
    lemma_push_step();
    lemma_numbered_len(steps);
    lemma_steps_rendered(steps);
    assert(seq![tenant_step(tenant_id)] =~= Seq::<Step>::empty().push(tenant_step(tenant_id)));
    let conds = numbered(steps);
    let params = step_params(steps);
    assert(conds.len() == 1 + present(f.status) + present(f.agent_id) + present(f.parent_id));
    assert(params.len() == 1 + present(f.status) + present(f.agent_id) + present(f.parent_id));
    assert(steps.contains(tenant_step(tenant_id)));
    if let Some(x) = f.status {
        assert(steps.contains(eq_cond("status = "@, text_v(trajectory_status_name(x)))));
        assert(has_condition(conds, params, "status = "@, Seq::empty(), text_v(trajectory_status_name(x))));
    }
    if let Some(x) = f.agent_id {
        assert(steps.contains(eq_cond("agent_id = "@, uuid_v(x))));
        assert(has_condition(conds, params, "agent_id = "@, Seq::empty(), uuid_v(x)));
    }
    if let Some(x) = f.parent_id {
        assert(steps.contains(eq_cond("parent_trajectory_id = "@, uuid_v(x))));
        assert(has_condition(conds, params, "parent_trajectory_id = "@, Seq::empty(), uuid_v(x)));
    }
}

/// An artifact listing filters on the tenant and on each field that is set, and
/// on nothing else: its conditions are `tenant_id = $k` with the tenant as
/// parameter and, for each field that is present, one condition naming that
/// field's column whose parameter is the field's value; there are no other
/// conditions and no other parameters.
pub proof fn lemma_artifact_filter_conditions(f: ArtifactListFilter, tenant_id: EntityId)
    ensures
        ({
            let conds = numbered(artifact_steps(f, tenant_id));
            let params = step_params(artifact_steps(f, tenant_id));
            &&& conds.len() == 1 + present(f.trajectory_id) + present(f.scope_id) + present(f.artifact_type)
            &&& params.len() == 1 + present(f.trajectory_id) + present(f.scope_id) + present(f.artifact_type)
            &&& has_condition(conds, params, "tenant_id = "@, Seq::empty(), uuid_v(tenant_id))
            &&& f.trajectory_id matches Some(x)
                ==> has_condition(conds, params, "trajectory_id = "@, Seq::empty(), uuid_v(x))
            &&& f.scope_id matches Some(x)
                ==> has_condition(conds, params, "scope_id = "@, Seq::empty(), uuid_v(x))
            &&& f.artifact_type matches Some(x)
                ==> has_condition(conds, params, "artifact_type = "@, Seq::empty(), text_v(artifact_type_name(x)))
        }),
{
    broadcast use vstd::seq_lib::lemma_seq_contains_after_push;
    let steps = artifact_steps(f, tenant_id);
    lemma_push_step();
    lemma_numbered_len(steps);
    lemma_steps_rendered(steps);
    assert(seq![tenant_step(tenant_id)] =~= Seq::<Step>::empty().push(tenant_step(tenant_id)));
    let conds = numbered(steps);
    let params = step_params(steps);
    assert(conds.len() == 1 + present(f.trajectory_id) + present(f.scope_id) + present(f.artifact_type));
    assert(params.len() == 1 + present(f.trajectory_id) + present(f.scope_id) + present(f.artifact_type));
    assert(steps.contains(tenant_step(tenant_id)));
    if let Some(x) = f.trajectory_id {
        assert(steps.contains(eq_cond("trajectory_id = "@, uuid_v(x))));
        assert(has_condition(conds, params, "trajectory_id = "@, Seq::empty(), uuid_v(x)));
    }
    if let Some(x) = f.scope_id {
        assert(steps.contains(eq_cond("scope_id = "@, uuid_v(x))));
        assert(has_condition(conds, params, "scope_id = "@, Seq::empty(), uuid_v(x)));
    }
    if let Some(x) = f.artifact_type {
        assert(steps.contains(eq_cond("artifact_type = "@, text_v(artifact_type_name(x)))));
        assert(has_condition(conds, params, "artifact_type = "@, Seq::empty(), text_v(artifact_type_name(x))));
    }
}

/// A note listing filters on the tenant and on each field that is set, and on
/// nothing else: its conditions are `tenant_id = $k` with the tenant as
/// parameter and, for each field that is present, one condition naming that
/// field's column whose parameter is the field's value; there are no other
/// conditions and no other parameters.
pub proof fn lemma_note_filter_conditions(f: NoteListFilter, tenant_id: EntityId)
    ensures
        ({
            let conds = numbered(note_steps(f, tenant_id));
            let params = step_params(note_steps(f, tenant_id));
            &&& conds.len() == 1 + present(f.note_type) + present(f.source_trajectory_id)
            &&& params.len() == 1 + present(f.note_type) + present(f.source_trajectory_id)
            &&& has_condition(conds, params, "tenant_id = "@, Seq::empty(), uuid_v(tenant_id))
            &&& f.note_type matches Some(x)
                ==> has_condition(conds, params, "note_type = "@, Seq::empty(), text_v(note_type_name(x)))
            &&& f.source_trajectory_id matches Some(x)
                ==> has_condition(conds, params, "source_trajectory_ids @> "@, "::jsonb"@, json_v(uuid_array_json(x)))
        }),
{
    broadcast use vstd::seq_lib::lemma_seq_contains_after_push;
    let steps = note_steps(f, tenant_id);
    lemma_push_step();
    lemma_numbered_len(steps);
    lemma_steps_rendered(steps);
    assert(seq![tenant_step(tenant_id)] =~= Seq::<Step>::empty().push(tenant_step(tenant_id)));
    let conds = numbered(steps);
    let params = step_params(steps);
    assert(conds.len() == 1 + present(f.note_type) + present(f.source_trajectory_id));
    assert(params.len() == 1 + present(f.note_type) + present(f.source_trajectory_id));
    assert(steps.contains(tenant_step(tenant_id)));
    if let Some(x) = f.note_type {
        assert(steps.contains(eq_cond("note_type = "@, text_v(note_type_name(x)))));
        assert(has_condition(conds, params, "note_type = "@, Seq::empty(), text_v(note_type_name(x))));
    }
    if let Some(x) = f.source_trajectory_id {
        assert(steps.contains(cond("source_trajectory_ids @> "@, "::jsonb"@, json_v(uuid_array_json(x)))));
        assert(has_condition(conds, params, "source_trajectory_ids @> "@, "::jsonb"@, json_v(uuid_array_json(x))));
    }
}

/// A scope listing filters on the tenant and on each field that is set, and on
/// nothing else: its conditions are `tenant_id = $k` with the tenant as
/// parameter and, for each field that is present, one condition naming that
/// field's column whose parameter is the field's value; there are no other
/// conditions and no other parameters.
pub proof fn lemma_scope_filter_conditions(f: ScopeListFilter, tenant_id: EntityId)
    ensures
        ({
            let conds = numbered(scope_steps(f, tenant_id));
            let params = step_params(scope_steps(f, tenant_id));
            &&& conds.len() == 1 + present(f.trajectory_id) + present(f.is_active)
            &&& params.len() == 1 + present(f.trajectory_id) + present(f.is_active)
            &&& has_condition(conds, params, "tenant_id = "@, Seq::empty(), uuid_v(tenant_id))
            &&& f.trajectory_id matches Some(x)
                ==> has_condition(conds, params, "trajectory_id = "@, Seq::empty(), uuid_v(x))
            &&& f.is_active matches Some(x)
                ==> has_condition(conds, params, "is_active = "@, Seq::empty(), bool_v(x))
        }),
{
    broadcast use vstd::seq_lib::lemma_seq_contains_after_push;
    let steps = scope_steps(f, tenant_id);
    lemma_push_step();
    lemma_numbered_len(steps);
    lemma_steps_rendered(steps);
    assert(seq![tenant_step(tenant_id)] =~= Seq::<Step>::empty().push(tenant_step(tenant_id)));
    let conds = numbered(steps);
    let params = step_params(steps);
    assert(conds.len() == 1 + present(f.trajectory_id) + present(f.is_active));
    assert(params.len() == 1 + present(f.trajectory_id) + present(f.is_active));
    assert(steps.contains(tenant_step(tenant_id)));
    if let Some(x) = f.trajectory_id {
        assert(steps.contains(eq_cond("trajectory_id = "@, uuid_v(x))));
        assert(has_condition(conds, params, "trajectory_id = "@, Seq::empty(), uuid_v(x)));
    }
    if let Some(x) = f.is_active {
        assert(steps.contains(eq_cond("is_active = "@, bool_v(x))));
        assert(has_condition(conds, params, "is_active = "@, Seq::empty(), bool_v(x)));
    }
}

/// A turn listing filters on the tenant and on each field that is set, and on
/// nothing else: its conditions are `tenant_id = $k` with the tenant as
/// parameter and, for each field that is present, one condition naming that
/// field's column whose parameter is the field's value; there are no other
/// conditions and no other parameters.
pub proof fn lemma_turn_filter_conditions(f: TurnListFilter, tenant_id: EntityId)
    ensures
        ({
            let conds = numbered(turn_steps(f, tenant_id));
            let params = step_params(turn_steps(f, tenant_id));
            &&& conds.len() == 1 + present(f.scope_id)
            &&& params.len() == 1 + present(f.scope_id)
            &&& has_condition(conds, params, "tenant_id = "@, Seq::empty(), uuid_v(tenant_id))
            &&& f.scope_id matches Some(x)
                ==> has_condition(conds, params, "scope_id = "@, Seq::empty(), uuid_v(x))
        }),
{
    broadcast use vstd::seq_lib::lemma_seq_contains_after_push;
    let steps = turn_steps(f, tenant_id);
    lemma_push_step();
    lemma_numbered_len(steps);
    lemma_steps_rendered(steps);
    assert(seq![tenant_step(tenant_id)] =~= Seq::<Step>::empty().push(tenant_step(tenant_id)));
    let conds = numbered(steps);
    let params = step_params(steps);
    assert(conds.len() == 1 + present(f.scope_id));
    assert(params.len() == 1 + present(f.scope_id));
    assert(steps.contains(tenant_step(tenant_id)));
    if let Some(x) = f.scope_id {
        assert(steps.contains(eq_cond("scope_id = "@, uuid_v(x))));
        assert(has_condition(conds, params, "scope_id = "@, Seq::empty(), uuid_v(x)));
    }
}

/// A summarization policy listing filters on the tenant and on each field that
/// is set, and on nothing else: its conditions are `tenant_id = $k` with the
/// tenant as parameter and, for each field that is present, one condition
/// naming that field's column whose parameter is the field's value; there are
/// no other conditions and no other parameters.
pub proof fn lemma_summarization_policy_filter_conditions(f: SummarizationPolicyListFilter, tenant_id: EntityId)
    ensures
        ({
            let conds = numbered(summarization_policy_steps(f, tenant_id));
            let params = step_params(summarization_policy_steps(f, tenant_id));
            &&& conds.len() == 1 + present(f.trajectory_id)
            &&& params.len() == 1 + present(f.trajectory_id)
            &&& has_condition(conds, params, "tenant_id = "@, Seq::empty(), uuid_v(tenant_id))
            &&& f.trajectory_id matches Some(x)
                ==> has_condition(conds, params, "trajectory_id = "@, Seq::empty(), uuid_v(x))
        }),
{
    broadcast use vstd::seq_lib::lemma_seq_contains_after_push;
    let steps = summarization_policy_steps(f, tenant_id);
    lemma_push_step();
    lemma_numbered_len(steps);
    lemma_steps_rendered(steps);
    assert(seq![tenant_step(tenant_id)] =~= Seq::<Step>::empty().push(tenant_step(tenant_id)));
    let conds = numbered(steps);
    let params = step_params(steps);
    assert(conds.len() == 1 + present(f.trajectory_id));
    assert(params.len() == 1 + present(f.trajectory_id));
    assert(steps.contains(tenant_step(tenant_id)));
    if let Some(x) = f.trajectory_id {
        assert(steps.contains(eq_cond("trajectory_id = "@, uuid_v(x))));
        assert(has_condition(conds, params, "trajectory_id = "@, Seq::empty(), uuid_v(x)));
    }
}

} // verus!
