use caliber::error::ErrorCode;
use caliber::guard::{client_ip_candidates, effective_quota, rate_limit_key, requests_per_minute, retry_after_secs, AuthMiddlewareError, RateLimitError, RateLimitKey};
use caliber::config::ApiConfig;
use caliber::error::ApiError;
use caliber::idempotency::{
    admit_idempotency_key, compute_request_hash, extract_operation_name, is_mutating_method, path_resource_name,
    idempotency_check_outcome, idempotency_decision, replay_status, HttpMethod, IdempotencyCheckResult, IdempotencyDecision, IdempotencyError,
};
use sha2::Digest;

#[test]
fn test_is_mutating_method() {
    assert!(is_mutating_method(&HttpMethod::Post));
    assert!(is_mutating_method(&HttpMethod::Put));
    assert!(is_mutating_method(&HttpMethod::Patch));
    assert!(is_mutating_method(&HttpMethod::Delete));
    assert!(!is_mutating_method(&HttpMethod::Get));
    assert!(!is_mutating_method(&HttpMethod::Head));
    assert!(!is_mutating_method(&HttpMethod::Options));
}

#[test]
fn test_extract_operation_name() {
    assert_eq!(extract_operation_name("/api/v1/delegations", &HttpMethod::Post), "post_delegations");
    assert_eq!(extract_operation_name("/api/v1/delegations/", &HttpMethod::Post), "post_delegations");
    assert_eq!(
        extract_operation_name("/api/v1/delegations/123e4567-e89b-12d3-a456-426614174000", &HttpMethod::Put),
        "put_delegations"
    );
    assert_eq!(extract_operation_name("/api/v1/unknown", &HttpMethod::Delete), "delete_unknown");
}

#[test]
fn operation_name_edge_cases() {
    assert_eq!(path_resource_name(""), "unknown");
    assert_eq!(path_resource_name("///"), "unknown");
    assert_eq!(path_resource_name("/123e4567-e89b-12d3-a456-426614174000"), "unknown");
    assert_eq!(path_resource_name("a//b//"), "b");
    assert_eq!(extract_operation_name("/x", &HttpMethod::Other("PURGE".to_string())), "purge_x");
}

#[test]
fn test_compute_request_hash_deterministic() {
    let body = br#"{"name": "test"}"#;
    let hash1 = compute_request_hash(&HttpMethod::Post, "/api/v1/test", body);
    let hash2 = compute_request_hash(&HttpMethod::Post, "/api/v1/test", body);
    assert_eq!(hash1, hash2);
}

#[test]
fn test_compute_request_hash_different_for_different_inputs() {
    let body = br#"{"name": "test"}"#;
    let hash1 = compute_request_hash(&HttpMethod::Post, "/api/v1/test", body);
    let hash2 = compute_request_hash(&HttpMethod::Put, "/api/v1/test", body);
    assert_ne!(hash1, hash2);
    let hash3 = compute_request_hash(&HttpMethod::Post, "/api/v1/other", body);
    assert_ne!(hash1, hash3);
    let other_body = br#"{"name": "other"}"#;
    let hash4 = compute_request_hash(&HttpMethod::Post, "/api/v1/test", other_body);
    assert_ne!(hash1, hash4);
}

#[test]
fn request_hash_is_sha256_of_the_fingerprint() {
    let h = compute_request_hash(&HttpMethod::Post, "/p", b"body");
    let expected = sha2::Sha256::digest(b"POST|/p|body").to_vec();
    assert_eq!(h, expected);
    assert_eq!(h.len(), 32);
}

#[test]
fn idempotency_key_admission() {
    assert_eq!(admit_idempotency_key(Some("k"), false), Ok(Some("k".to_string())));
    assert_eq!(admit_idempotency_key(None, false), Ok(None));
    assert_eq!(admit_idempotency_key(None, true), Err(IdempotencyError::MissingKey));
    let long = "x".repeat(257);
    assert_eq!(
        admit_idempotency_key(Some(&long), false),
        Err(IdempotencyError::InvalidKey("Idempotency key must be 1-256 characters".to_string()))
    );
    assert!(admit_idempotency_key(Some(&"x".repeat(256)), true).is_ok());
    assert!(admit_idempotency_key(Some(""), false).is_err());
}

#[test]
fn idempotency_error_responses() {
    let (status, e) = IdempotencyError::MissingKey.error_response();
    assert_eq!(status, 400);
    assert_eq!(e.code, ErrorCode::MissingField);
    assert_eq!(e.message, "Header 'idempotency-key' is required for this operation");
    let (status, e) = IdempotencyError::Conflict("k1".to_string()).error_response();
    assert_eq!(status, 409);
    assert_eq!(e.message, "Idempotency key 'k1' was already used with a different request");
    let (status, e) = IdempotencyError::Internal("db down".to_string()).error_response();
    assert_eq!(status, 500);
    assert_eq!(e.message, "Internal server error");
}

#[test]
fn auth_failures_map_to_statuses() {
    assert_eq!(AuthMiddlewareError(ApiError::unauthorized("x")).status(), 401);
    assert_eq!(AuthMiddlewareError(ApiError::token_expired()).status(), 401);
    assert_eq!(AuthMiddlewareError(ApiError::forbidden("x")).status(), 403);
    assert_eq!(AuthMiddlewareError(ApiError::missing_field("x")).status(), 400);
    assert_eq!(AuthMiddlewareError(ApiError::internal_error("x")).status(), 500);
}

#[test]
fn rate_limit_decisions() {
    let config = ApiConfig::default();
    assert_eq!(requests_per_minute(&config, &RateLimitKey::Ip("10.0.0.1".to_string())), 100);
    assert_eq!(requests_per_minute(&config, &RateLimitKey::Tenant("t".to_string())), 1000);
    assert_eq!(effective_quota(0), 1);
    assert_eq!(effective_quota(7), 7);
    assert_eq!(retry_after_secs(0), 1);
    assert_eq!(retry_after_secs(42), 42);
    let err = RateLimitError { retry_after: 42 };
    let e = err.to_api_error();
    assert_eq!(e.code, ErrorCode::TooManyRequests);
    assert_eq!(e.message, "Rate limit exceeded. Retry after 42 seconds");
    assert_eq!(err.retry_after_header(), "42");
}

#[test]
fn middleware_decisions() {
    assert_eq!(idempotency_decision(&HttpMethod::Get, None, true, None), IdempotencyDecision::PassThrough);
    assert_eq!(idempotency_decision(&HttpMethod::Post, None, false, None), IdempotencyDecision::PassThrough);
    assert_eq!(
        idempotency_decision(&HttpMethod::Post, None, true, None),
        IdempotencyDecision::Reject(IdempotencyError::MissingKey)
    );
    assert_eq!(
        idempotency_decision(&HttpMethod::Delete, Some("k"), false, None),
        IdempotencyDecision::Reject(IdempotencyError::Internal("Auth context missing, ensure auth middleware runs first".to_string()))
    );
    assert_eq!(
        idempotency_decision(&HttpMethod::Patch, Some("k"), false, Some(3)),
        IdempotencyDecision::Check { key: "k".to_string(), tenant_id: 3 }
    );
}

#[test]
fn rate_limit_key_prefers_the_tenant() {
    let id: u128 = 0x0123456789abcdef0123456789abcdef;
    assert_eq!(
        rate_limit_key(Some(id), "10.0.0.1"),
        RateLimitKey::Tenant("01234567-89ab-cdef-0123-456789abcdef".to_string())
    );
    assert_eq!(rate_limit_key(None, "10.0.0.1"), RateLimitKey::Ip("10.0.0.1".to_string()));
}

#[test]
fn client_ip_candidates_take_first_forwarded_entry() {
    assert_eq!(
        client_ip_candidates(Some(" 203.0.113.7 , 10.0.0.1"), Some(" 198.51.100.2 ")),
        vec!["203.0.113.7".to_string(), "198.51.100.2".to_string()]
    );
    assert_eq!(client_ip_candidates(Some("203.0.113.7"), None), vec!["203.0.113.7".to_string()]);
    assert_eq!(client_ip_candidates(None, Some("::1")), vec!["::1".to_string()]);
    assert_eq!(client_ip_candidates(Some(",10.0.0.1"), None), vec![String::new()]);
    assert!(client_ip_candidates(None, None).is_empty());
}

#[test]
fn key_store_replies_become_outcomes() {
    assert!(matches!(idempotency_check_outcome("k", Ok(None)), Ok(IdempotencyCheckResult::New)));
    assert!(matches!(idempotency_check_outcome("k", Ok(Some((false, 0, None)))), Ok(IdempotencyCheckResult::New)));
    assert!(matches!(
        idempotency_check_outcome("k", Ok(Some((true, 201, None)))),
        Ok(IdempotencyCheckResult::Cached { status: 201, body: None })
    ));
    assert!(matches!(idempotency_check_outcome("k", Err((true, "dup".to_string()))), Err(IdempotencyError::Conflict(k)) if k == "k"));
    assert!(matches!(
        idempotency_check_outcome("k", Err((false, "down".to_string()))),
        Err(IdempotencyError::Internal(m)) if m == "Failed to check idempotency key: down"
    ));
}

#[test]
fn replayed_statuses_are_kept_when_valid() {
    assert_eq!(replay_status(201), 201);
    assert_eq!(replay_status(100), 100);
    assert_eq!(replay_status(999), 999);
    assert_eq!(replay_status(99), 500);
    assert_eq!(replay_status(1000), 500);
    assert_eq!(replay_status(-1), 500);
    assert_eq!(replay_status(65536 + 204), 204);
}
