use caliber::events::{created_event_kind, deleted_event_kind, updated_event_kind, AuditEventKind};
use caliber::codes::{
    outcome_status_or_success, parse_ttl, ttl_to_string, ArtifactType, ExtractionMethod, NoteType, OutcomeStatus,
    TrajectoryStatus, Ttl, TurnRole,
};
use caliber::component::{sql_function, ListFilter, SqlParam};
use caliber::error::ErrorCode;
use caliber::events::WsEventKind;
use caliber::list_filters::{
    AgentListFilter, ApiKeyListFilter, EdgeListFilter, MessageListFilter, NoteListFilter, TenantListFilter,
    TenantStatus, TrajectoryListFilter, TurnListFilter, WebhookListFilter,
};
use caliber::path_id::PathIdError;

#[test]
fn tenant_filter_numbers_its_parameters() {
    let f = TenantListFilter { status: Some(TenantStatus::Suspended), domain: Some("x.io".to_string()), limit: Some(5), offset: None };
    let (w, p) = f.build_where(0);
    assert_eq!(w, Some("status = $1 AND domain = $2".to_string()));
    assert_eq!(p, vec![SqlParam::String("suspended".to_string()), SqlParam::String("x.io".to_string())]);
    assert_eq!(f.limit(), 5);
    assert_eq!(f.offset(), 0);
    let (w, p) = TenantListFilter::default().build_where(0);
    assert_eq!(w, None);
    assert!(p.is_empty());
    let only_domain = TenantListFilter { domain: Some("d".to_string()), ..Default::default() };
    assert_eq!(only_domain.build_where(0).0, Some("domain = $1".to_string()));
}

#[test]
fn webhook_and_api_key_filters() {
    let w = WebhookListFilter { is_active: None, event: Some("ev".to_string()), limit: None, offset: None };
    let (c, p) = w.build_where(9);
    assert_eq!(c, Some("tenant_id = $1 AND events @> ARRAY[$2]::text[]".to_string()));
    assert_eq!(p, vec![SqlParam::Uuid(9), SqlParam::String("ev".to_string())]);
    let a = ApiKeyListFilter { is_active: Some(true), name: Some("bot".to_string()), limit: None, offset: Some(3) };
    let (c, p) = a.build_where(9);
    assert_eq!(c, Some("tenant_id = $1 AND is_active = $2 AND name ILIKE $3".to_string()));
    assert_eq!(p, vec![SqlParam::Uuid(9), SqlParam::Bool(true), SqlParam::String("%bot%".to_string())]);
    assert_eq!(a.offset(), 3);
}

#[test]
fn edge_filter_is_not_tenant_scoped() {
    let id = uuid::Uuid::now_v7();
    let f = EdgeListFilter { target_id: Some(id.as_u128()), edge_type: Some("Supports".to_string()), ..Default::default() };
    let (c, p) = f.build_where(77);
    assert_eq!(
        c,
        Some("edge_type = $1 AND EXISTS (SELECT 1 FROM jsonb_array_elements(participants) p WHERE p->>'entity_id' = $2 AND p->>'role' = 'target')".to_string())
    );
    assert_eq!(p, vec![SqlParam::String("Supports".to_string()), SqlParam::String(id.to_string())]);
    assert_eq!(EdgeListFilter::default().build_where(77), (None, vec![]));
}

#[test]
fn edge_source_filter_matches_the_source_role_only() {
    let id = uuid::Uuid::now_v7();
    let f = EdgeListFilter { source_id: Some(id.as_u128()), ..Default::default() };
    let (c, p) = f.build_where(77);
    assert_eq!(
        c,
        Some("EXISTS (SELECT 1 FROM jsonb_array_elements(participants) p WHERE p->>'entity_id' = $1 AND p->>'role' = 'source')".to_string())
    );
    assert_eq!(p, vec![SqlParam::String(id.to_string())]);
}

#[test]
fn message_filter_flags_take_no_parameter() {
    let f = MessageListFilter {
        priority: Some("high".to_string()),
        undelivered_only: Some(true),
        unacknowledged_only: Some(false),
        ..Default::default()
    };
    let (c, p) = f.build_where(1);
    assert_eq!(c, Some("tenant_id = $1 AND priority = $2 AND delivered_at IS NULL".to_string()));
    assert_eq!(p, vec![SqlParam::Uuid(1), SqlParam::String("high".to_string())]);
}

#[test]
fn agent_and_trajectory_filters() {
    let f = AgentListFilter { status: Some("idle".to_string()), active_only: Some(true), ..Default::default() };
    let (c, p) = f.build_where(1);
    assert_eq!(c, Some("tenant_id = $1 AND status = $2 AND status = $3".to_string()));
    assert_eq!(p[2], SqlParam::String("active".to_string()));
    let t = TrajectoryListFilter { status: Some(TrajectoryStatus::Failed), parent_id: Some(5), ..Default::default() };
    let (c, p) = t.build_where(1);
    assert_eq!(c, Some("tenant_id = $1 AND status = $2 AND parent_trajectory_id = $3".to_string()));
    assert_eq!(p, vec![SqlParam::Uuid(1), SqlParam::String("failed".to_string()), SqlParam::Uuid(5)]);
    assert_eq!(TurnListFilter::default().build_where(4).0, Some("tenant_id = $1".to_string()));
}

#[test]
fn note_filter_matches_source_trajectory_as_json() {
    let id = uuid::Uuid::now_v7();
    let f = NoteListFilter { note_type: Some(NoteType::Gotcha), source_trajectory_id: Some(id.as_u128()), limit: None, offset: None };
    let (c, p) = f.build_where(2);
    assert_eq!(c, Some("tenant_id = $1 AND note_type = $2 AND source_trajectory_ids @> $3::jsonb".to_string()));
    assert_eq!(p[1], SqlParam::String("Gotcha".to_string()));
    assert_eq!(p[2], SqlParam::Json(format!("[\"{}\"]", id)));
}

#[test]
fn stored_procedure_names() {
    assert_eq!(sql_function("trajectory", "create"), "caliber_trajectory_create");
}

#[test]
fn ttl_round_trips_through_its_text() {
    let all = [
        Ttl::Persistent, Ttl::Session, Ttl::Scope, Ttl::Ephemeral, Ttl::ShortTerm, Ttl::MediumTerm,
        Ttl::LongTerm, Ttl::Permanent, Ttl::Duration(0), Ttl::Duration(1500), Ttl::Duration(-7), Ttl::Duration(i64::MIN),
    ];
    for t in all.iter() {
        assert_eq!(parse_ttl(&ttl_to_string(t)), Ok(*t));
    }
    assert_eq!(ttl_to_string(&Ttl::Duration(-7)), "duration_-7");
    assert_eq!(ttl_to_string(&Ttl::ShortTerm), "short_term");
}

#[test]
fn ttl_parse_errors() {
    let e = parse_ttl("forever").unwrap_err();
    assert_eq!(e.code, ErrorCode::InternalError);
    assert_eq!(e.message, "Invalid TTL: forever");
    let e = parse_ttl("duration_x").unwrap_err();
    assert_eq!(e.message, "Invalid TTL duration: duration_x");
    assert_eq!(parse_ttl("duration_duration_5"), Ok(Ttl::Duration(5)));
    assert_eq!(parse_ttl("duration_+5"), Ok(Ttl::Duration(5)));
}

#[test]
fn stored_names_round_trip() {
    assert_eq!(TrajectoryStatus::parse("completed"), Some(TrajectoryStatus::Completed));
    assert_eq!(TrajectoryStatus::from_stored("done").unwrap_err().message, "Invalid trajectory status: done");
    assert_eq!(ArtifactType::parse(ArtifactType::IntermediateOutput.as_str()), Some(ArtifactType::IntermediateOutput));
    assert_eq!(NoteType::from_stored("Meta"), Ok(NoteType::Meta));
    assert_eq!(TurnRole::parse("tool"), Some(TurnRole::Tool));
    assert_eq!(TurnRole::from_stored("robot").unwrap_err().message, "Invalid turn role: robot");
    assert_eq!(ExtractionMethod::parse("user_provided"), Some(ExtractionMethod::UserProvided));
    assert_eq!(outcome_status_or_success(Some("partial")), OutcomeStatus::Partial);
    assert_eq!(outcome_status_or_success(Some("weird")), OutcomeStatus::Success);
    assert_eq!(outcome_status_or_success(None), OutcomeStatus::Success);
}

#[test]
fn test_event_type_names() {
    assert_eq!(WsEventKind::TrajectoryCreated.event_type(), "TrajectoryCreated");
    assert_eq!(WsEventKind::EdgesBatchCreated.event_type(), "EdgesBatchCreated");
}

#[test]
fn test_tenant_specific_events() {
    assert!(WsEventKind::TrajectoryCreated.is_tenant_specific());
    assert!(!WsEventKind::Connected.is_tenant_specific());
    assert!(!WsEventKind::ConfigUpdated.is_tenant_specific());
}

#[test]
fn test_path_id_error_display() {
    let err = PathIdError { entity_name: "trajectory", path_param: "invalid-uuid".to_string(), message: "not a valid UUID".to_string() };
    let display = err.display_text();
    assert!(display.contains("trajectory"));
    assert!(display.contains("invalid-uuid"));
    assert_eq!(display, "Invalid trajectory ID 'invalid-uuid': not a valid UUID");
}

#[test]
fn path_id_errors_name_the_failure() {
    let e = PathIdError::for_single("scope", "/scopes/x", "bad");
    assert_eq!(e.message, "Failed to extract UUID from path: bad");
    let e = PathIdError::for_several("/a/b", "bad");
    assert_eq!(e.entity_name, "path");
    assert_eq!(e.message, "Failed to extract UUIDs from path: bad");
}

#[test]
fn test_sql_param_debug() {
    let param = SqlParam::String("test".to_string());
    assert!(format!("{:?}", param).contains("test"));
}

#[test]
fn audit_event_kinds_by_entity() {
    assert_eq!(created_event_kind("agent"), AuditEventKind::AgentRegistered);
    assert_eq!(created_event_kind("webhook"), AuditEventKind::Data);
    assert_eq!(updated_event_kind("scope"), AuditEventKind::ScopeUpdated);
    assert_eq!(updated_event_kind("lock"), AuditEventKind::Data);
    assert_eq!(deleted_event_kind("lock"), AuditEventKind::LockReleased);
    assert_eq!(deleted_event_kind("scope"), AuditEventKind::Data);
}
