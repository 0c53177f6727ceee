use caliber::auth::{check_fetched_resource, require_found, AuthContext, AuthMethod};
use caliber::events::WsEventKind;
use caliber::billing::{billing_status, billing_status_at, BillingPlan, BillingRecord};
use caliber::error::ErrorCode;
use caliber::error::ApiError;
use caliber::codes::{NoteType, TrajectoryStatus};
use caliber::ident::entity_id_text;
use caliber::auth::extract_tenant_id;
use caliber::grpc_rules::{note_list_filtered, note_list_page, parse_source_trajectory_id, trajectory_list_page, trajectory_list_request, NoteRow, TrajectoryRow, ascii_lowercase_text, grpc_code, parse_filter_operator, parse_optional_timestamp_millis, parse_timestamp_millis, resolve_call_tenant, FilterOperator, GrpcCode, GrpcError};
use caliber::settings::{parse_bool, parse_i32, parse_u16, parse_u64, split_list, trim_text};

#[test]
fn filter_operators_are_trimmed_and_case_insensitive() {
    assert_eq!(parse_filter_operator(" GTE "), Ok(FilterOperator::Gte));
    assert_eq!(parse_filter_operator("contains"), Ok(FilterOperator::Contains));
    assert_eq!(parse_filter_operator("Not"), Ok(FilterOperator::Not));
    let e = parse_filter_operator("like").unwrap_err();
    assert_eq!(e.code, GrpcCode::InvalidArgument);
    assert_eq!(e.message, "Invalid filter operator");
    assert_eq!(ascii_lowercase_text("ÀBc"), "Àbc");
}

#[test]
fn grpc_tenant_resolution() {
    let id = uuid::Uuid::now_v7();
    let text = id.to_string();
    assert_eq!(resolve_call_tenant(Some(Some(&text)), Some(5)), Ok(id.as_u128()));
    assert_eq!(resolve_call_tenant(None, Some(5)), Ok(5));
    let e = resolve_call_tenant(None, None).unwrap_err();
    assert_eq!(e.code, GrpcCode::Unauthenticated);
    assert_eq!(e.message, "Missing tenant ID");
    assert_eq!(resolve_call_tenant(Some(None), Some(5)).unwrap_err().message, "Invalid tenant ID header");
    assert_eq!(resolve_call_tenant(Some(Some("nope")), None).unwrap_err().message, "Invalid tenant ID format");
}

#[test]
fn fetched_resources_must_exist_and_belong_to_the_tenant() {
    let mine = uuid::Uuid::now_v7();
    let id = uuid::Uuid::now_v7();
    let auth = AuthContext::new("u".to_string(), mine.as_u128(), vec![], AuthMethod::ApiKey);
    assert!(check_fetched_resource("note", id.as_u128(), Some(mine.as_u128()), &auth).is_ok());
    let e = check_fetched_resource("note", id.as_u128(), None, &auth).unwrap_err();
    assert_eq!(e.code, ErrorCode::EntityNotFound);
    assert_eq!(e.message, format!("note with id {} not found", id));
    let e = check_fetched_resource("note", id.as_u128(), Some(7), &auth).unwrap_err();
    assert_eq!(e.code, ErrorCode::Forbidden);
}

#[test]
fn billing_defaults_for_new_and_partial_records() {
    let s = billing_status_at(1, None, 1000);
    assert_eq!(s.plan, BillingPlan::Trial);
    assert_eq!(s.trial_ends_at, Some(1000 + 14 * 24 * 3600 * 1000));
    assert_eq!(s.storage_limit_bytes, 1024 * 1024 * 1024);
    assert_eq!(s.hot_cache_limit_bytes, 100 * 1024 * 1024);
    let record = BillingRecord {
        plan: Some("enterprise".to_string()),
        trial_ends_at: None,
        storage_used_bytes: Some(5),
        storage_limit_bytes: None,
        hot_cache_used_bytes: None,
        hot_cache_limit_bytes: Some(9),
    };
    let s = billing_status_at(1, Some(record.clone()), 1000);
    assert_eq!(s.plan, BillingPlan::Enterprise);
    assert_eq!(s.storage_used_bytes, 5);
    assert_eq!(s.storage_limit_bytes, 1024 * 1024 * 1024);
    assert_eq!(s.hot_cache_limit_bytes, 9);
    let odd = BillingRecord { plan: Some("gold".to_string()), ..record };
    assert_eq!(billing_status(1, Some(odd)).unwrap().plan, BillingPlan::Trial);
}

#[test]
fn integer_parsing_follows_from_str() {
    assert_eq!(parse_u64("18446744073709551615"), Some(u64::MAX));
    assert_eq!(parse_u64("18446744073709551616"), None);
    assert_eq!(parse_u64("+7"), Some(7));
    assert_eq!(parse_u64("-0"), None);
    assert_eq!(parse_u64("+"), None);
    assert_eq!(parse_u64(""), None);
    assert_eq!(parse_u64("99999999999999999999999999999999"), None);
    assert_eq!(parse_i32("-2147483648"), Some(i32::MIN));
    assert_eq!(parse_i32("2147483648"), None);
    assert_eq!(parse_u16("65535"), Some(65535));
    assert_eq!(parse_bool("true"), Some(true));
    assert_eq!(parse_bool("True"), None);
    for n in [0u64, 9, 10, 12345, u64::MAX] {
        assert_eq!(parse_u64(&n.to_string()), Some(n));
    }
}

#[test]
fn trimming_and_lists() {
    assert_eq!(trim_text("\u{3000} a b \t"), "a b");
    assert_eq!(split_list("a,,b , c"), vec!["a".to_string(), "b".to_string(), "c".to_string()]);
    assert!(split_list(" , ").is_empty());
}

#[test]
fn fetched_resource_without_tenant_check() {
    let id = uuid::Uuid::now_v7();
    assert_eq!(require_found("scope", id.as_u128(), Some(5u8)), Ok(5u8));
    let e = require_found::<u8>("scope", id.as_u128(), None).unwrap_err();
    assert_eq!(e.code, ErrorCode::EntityNotFound);
    assert_eq!(e.message, format!("scope with id {} not found", id));
}

#[test]
fn event_subscriptions_filter_by_type() {
    assert!(WsEventKind::NoteCreated.is_subscribed(&vec![]));
    let types = vec!["NoteCreated".to_string(), "LockAcquired".to_string()];
    assert!(WsEventKind::NoteCreated.is_subscribed(&types));
    assert!(WsEventKind::LockAcquired.is_subscribed(&types));
    assert!(!WsEventKind::NoteUpdated.is_subscribed(&types));
    assert!(!WsEventKind::NoteCreated.is_subscribed(&vec!["notecreated".to_string()]));
}

#[test]
fn api_errors_map_to_grpc_statuses() {
    let g = GrpcError::from(ApiError::forbidden("no"));
    assert_eq!(g.code, GrpcCode::PermissionDenied);
    assert_eq!(g.message, "no");
    assert_eq!(GrpcError::from(ApiError::token_expired()).code, GrpcCode::Unauthenticated);
    assert_eq!(grpc_code(ErrorCode::InvalidRange), GrpcCode::InvalidArgument);
    assert_eq!(grpc_code(ErrorCode::WebhookNotFound), GrpcCode::NotFound);
    assert_eq!(grpc_code(ErrorCode::EntityAlreadyExists), GrpcCode::AlreadyExists);
    assert_eq!(grpc_code(ErrorCode::ConcurrentModification), GrpcCode::Aborted);
    assert_eq!(grpc_code(ErrorCode::TooManyRequests), GrpcCode::ResourceExhausted);
    assert_eq!(grpc_code(ErrorCode::LockExpired), GrpcCode::FailedPrecondition);
    assert_eq!(grpc_code(ErrorCode::Timeout), GrpcCode::DeadlineExceeded);
    assert_eq!(grpc_code(ErrorCode::DatabaseError), GrpcCode::Internal);
    assert_eq!(grpc_code(ErrorCode::ServiceUnavailable), GrpcCode::Unavailable);
}

#[test]
fn grpc_timestamps_must_fit_chrono() {
    assert_eq!(parse_timestamp_millis(1_700_000_000_000, "created_at"), Ok(1_700_000_000_000));
    assert_eq!(parse_timestamp_millis(-1, "created_at"), Ok(-1));
    let e = parse_timestamp_millis(i64::MAX, "created_at").unwrap_err();
    assert_eq!(e.code, GrpcCode::InvalidArgument);
    assert_eq!(e.message, "Invalid created_at");
    assert_eq!(parse_optional_timestamp_millis(None, "x"), Ok(None));
    assert_eq!(parse_optional_timestamp_millis(Some(5), "x"), Ok(Some(5)));
    assert!(parse_optional_timestamp_millis(Some(i64::MIN), "x").is_err());
}

#[test]
fn note_listing_filters_then_pages() {
    let n = |id: u128, t: NoteType, at: i64| NoteRow { note_id: id, note_type: t, created_at: at };
    let notes = vec![
        n(1, NoteType::Fact, 10),
        n(2, NoteType::Gotcha, 20),
        n(3, NoteType::Fact, 30),
        n(4, NoteType::Fact, 40),
        n(5, NoteType::Fact, 50),
    ];
    let (page, total) = note_list_page(notes.clone(), Some("Fact"), Some(20), Some(45), None, None);
    assert_eq!(total, 2);
    assert_eq!(page.iter().map(|r| r.note_id).collect::<Vec<_>>(), vec![3, 4]);
    let (page, total) = note_list_page(notes.clone(), Some("nonsense"), None, None, Some(1), Some(2));
    assert_eq!(total, 5);
    assert_eq!(page.iter().map(|r| r.note_id).collect::<Vec<_>>(), vec![2, 3]);
    let (page, total) = note_list_page(notes.clone(), None, None, None, Some(9), None);
    assert_eq!(total, 5);
    assert!(page.is_empty());
    let (page, _) = note_list_page(notes, None, None, None, Some(-1), None);
    assert!(page.is_empty());
}

#[test]
fn note_listing_source_trajectory_must_be_a_uuid() {
    let id = uuid::Uuid::now_v7();
    assert_eq!(parse_source_trajectory_id(&id.to_string()), Ok(id.as_u128()));
    let e = parse_source_trajectory_id("nope").unwrap_err();
    assert_eq!(e.code, GrpcCode::InvalidArgument);
    assert_eq!(e.message, "Invalid source_trajectory_id");
}

#[test]
fn trajectory_listing_needs_a_status() {
    let a = uuid::Uuid::now_v7();
    assert_eq!(
        trajectory_list_request(Some("active"), Some(&a.to_string()), Some("junk")),
        Ok((TrajectoryStatus::Active, Some(a.as_u128()), None))
    );
    let e = trajectory_list_request(None, None, None).unwrap_err();
    assert_eq!(e.code, GrpcCode::InvalidArgument);
    assert_eq!(e.message, "status filter required");
    assert!(trajectory_list_request(Some("sideways"), None, None).is_err());
}

#[test]
fn trajectory_listing_filters_then_pages() {
    let t = |id: u128, a: Option<u128>, p: Option<u128>| TrajectoryRow { trajectory_id: id, agent_id: a, parent_trajectory_id: p };
    let rows = vec![t(1, Some(7), None), t(2, Some(8), None), t(3, Some(7), Some(1)), t(4, Some(7), Some(1))];
    let (page, total) = trajectory_list_page(rows.clone(), Some(7), None, None, Some(2));
    assert_eq!(total, 3);
    assert_eq!(page.iter().map(|r| r.trajectory_id).collect::<Vec<_>>(), vec![1, 3]);
    let (page, total) = trajectory_list_page(rows, Some(7), Some(1), Some(1), None);
    assert_eq!(total, 2);
    assert_eq!(page.iter().map(|r| r.trajectory_id).collect::<Vec<_>>(), vec![4]);
}

#[test]
fn identifier_text_reads_back() {
    let id = uuid::Uuid::now_v7();
    let text = entity_id_text(id.as_u128());
    assert_eq!(text, id.to_string());
    assert_eq!(extract_tenant_id(&text), Ok(id.as_u128()));
    assert_eq!(extract_tenant_id("not-a-uuid").unwrap_err().code, ErrorCode::InvalidFormat);
}

#[test]
fn note_listing_without_trajectory_filters_only() {
    let n = |id: u128, t: NoteType, at: i64| NoteRow { note_id: id, note_type: t, created_at: at };
    let notes = vec![n(1, NoteType::Fact, 10), n(2, NoteType::Meta, 20), n(3, NoteType::Fact, 30)];
    let (kept, total) = note_list_filtered(notes.clone(), Some("Fact"), None, Some(25));
    assert_eq!(total, 1);
    assert_eq!(kept, vec![n(1, NoteType::Fact, 10)]);
    let (kept, total) = note_list_filtered(notes.clone(), None, None, None);
    assert_eq!(total, 3);
    assert_eq!(kept, notes);
}
