use caliber::auth::{check_auth_provider, 
    authenticate_api_key, authenticate_claims, build_jwt_secret, check_decoded_token, check_tenant_access,
    extract_tenant_id, select_credentials, validate_api_key, validate_claim_times, validate_decoded_token,
    validate_tenant_ownership, AuthConfig, AuthContext, AuthMethod, AuthProvider, Claims, ConfigError, Credentials,
    FixedClock, JwtClock, JwtSecret, TokenRejection, INSECURE_DEFAULT_SECRET,
};
use caliber::error::ErrorCode;
use caliber::settings::Settings;

fn valid_clock() -> FixedClock {
    FixedClock(1704067200)
}

fn future_clock() -> FixedClock {
    FixedClock(1893456000)
}

fn test_config() -> AuthConfig<FixedClock> {
    let mut config = AuthConfig::with_secret("test_secret".to_string(), valid_clock());
    config.add_api_key("test_key_123".to_string());
    config.jwt_secret = JwtSecret::new("test_secret".to_string()).expect("Test secret should be valid");
    config.require_tenant_header = false;
    config
}

fn new_uuid() -> uuid::Uuid {
    uuid::Uuid::now_v7()
}

#[test]
fn test_api_key_validation() {
    let config = test_config();
    assert!(validate_api_key(&config, "test_key_123").is_ok());
    assert!(validate_api_key(&config, "invalid_key").is_err());
}

#[test]
fn test_jwt_generation_and_validation() {
    let config = test_config();
    let user_id = "user123".to_string();
    let tenant_id = Some(new_uuid().as_u128());
    let roles = vec!["admin".to_string()];
    let issued = Claims::new(user_id.clone(), tenant_id, config.jwt_expiration_secs, &config.clock).with_roles(roles.clone());
    let claims = validate_decoded_token(&config, Ok(issued)).expect("token should validate");
    assert_eq!(claims.sub, user_id);
    assert_eq!(claims.roles, roles);
    assert!(!claims.is_expired(&valid_clock()));
}

#[test]
fn test_expired_token() {
    let mut config = test_config();
    config.jwt_expiration_secs = -1;
    let issued = Claims::new("user123".to_string(), None, config.jwt_expiration_secs, &config.clock);
    config.clock = future_clock();
    let result = validate_decoded_token(&config, Ok(issued));
    assert!(result.is_err());
    if let Err(e) = result {
        assert_eq!(e.code, ErrorCode::TokenExpired);
    }
}

#[test]
fn test_tenant_id_extraction() {
    let tenant_id = new_uuid();
    let extracted = extract_tenant_id(&tenant_id.to_string()).expect("valid UUID");
    assert_eq!(extracted, tenant_id.as_u128());
    assert!(extract_tenant_id("not-a-uuid").is_err());
}

#[test]
fn invalid_tenant_header_is_an_invalid_format_error() {
    let e = extract_tenant_id("not-a-uuid").unwrap_err();
    assert_eq!(e.code, ErrorCode::InvalidFormat);
    assert_eq!(e.message, "Field 'X-Tenant-ID' has invalid format, expected valid UUID");
}

#[test]
fn test_authenticate_api_key() {
    let config = test_config();
    let tenant_id = new_uuid();
    let auth_context = authenticate_api_key(&config, "test_key_123", Some(&tenant_id.to_string())).expect("auth");
    assert_eq!(auth_context.tenant_id, tenant_id.as_u128());
    assert_eq!(auth_context.auth_method, AuthMethod::ApiKey);
    assert!(auth_context.has_role("api_user"));
    assert_eq!(auth_context.user_id, "api_key_test_key");
}

#[test]
fn api_key_auth_without_tenant_header() {
    let mut config = test_config();
    let ctx = authenticate_api_key(&config, "test_key_123", None).expect("auth");
    assert_eq!(ctx.tenant_id, 0);
    config.require_tenant_header = true;
    let e = authenticate_api_key(&config, "test_key_123", None).unwrap_err();
    assert_eq!(e.code, ErrorCode::MissingField);
    assert_eq!(e.message, "Required field 'X-Tenant-ID' is missing");
    let e = authenticate_api_key(&config, "other", None).unwrap_err();
    assert_eq!(e.code, ErrorCode::Unauthorized);
    assert_eq!(e.message, "Invalid API key");
}

#[test]
fn unknown_key_cut_inside_a_character_is_just_unauthorized() {
    let mut config = test_config();
    let e = authenticate_api_key(&config, "abcdefg\u{e9}", None).unwrap_err();
    assert_eq!(e.code, ErrorCode::Unauthorized);
    config.add_api_key("abcdefg\u{e9}".to_string());
    config.require_tenant_header = true;
    let e = authenticate_api_key(&config, "abcdefg\u{e9}", None).unwrap_err();
    assert_eq!(e.code, ErrorCode::MissingField);
}

#[test]
fn short_api_key_is_used_whole_in_the_user_id() {
    let mut config = test_config();
    config.add_api_key("abc".to_string());
    let ctx = authenticate_api_key(&config, "abc", None).expect("auth");
    assert_eq!(ctx.user_id, "api_key_abc");
}

#[test]
fn test_authenticate_jwt() {
    let config = test_config();
    let user_id = "user123".to_string();
    let tenant_id = new_uuid();
    let roles = vec!["admin".to_string()];
    let issued = Claims::new(user_id.clone(), Some(tenant_id.as_u128()), config.jwt_expiration_secs, &config.clock)
        .with_roles(roles.clone());
    let claims = validate_decoded_token(&config, Ok(issued)).expect("valid");
    let auth_context = authenticate_claims(&config, claims, None).expect("auth");
    assert_eq!(auth_context.user_id, user_id);
    assert_eq!(auth_context.tenant_id, tenant_id.as_u128());
    assert_eq!(auth_context.roles, roles);
    assert_eq!(auth_context.auth_method, AuthMethod::Jwt);
}

#[test]
fn header_tenant_takes_precedence_over_the_claim() {
    let config = test_config();
    let claimed = new_uuid();
    let header = new_uuid();
    let claims = Claims::new("u".to_string(), Some(claimed.as_u128()), 60, &config.clock);
    let ctx = authenticate_claims(&config, claims, Some(&header.to_string())).expect("auth");
    assert_eq!(ctx.tenant_id, header.as_u128());
}

#[test]
fn test_authenticate_with_api_key() {
    let config = test_config();
    let tenant_id = new_uuid();
    let credentials = select_credentials(Some("test_key_123"), None).expect("credentials");
    let auth_context = match credentials {
        Credentials::ApiKey(key) => authenticate_api_key(&config, &key, Some(&tenant_id.to_string())).expect("auth"),
        Credentials::BearerToken(_) => panic!("the API key comes first"),
    };
    assert_eq!(auth_context.auth_method, AuthMethod::ApiKey);
}

#[test]
fn test_authenticate_with_jwt() {
    let config = test_config();
    let user_id = "user123".to_string();
    let tenant_id = new_uuid();
    let auth_header = format!("Bearer {}", "header.payload.signature");
    let credentials = select_credentials(None, Some(&auth_header)).expect("credentials");
    assert_eq!(credentials, Credentials::BearerToken("header.payload.signature".to_string()));
    let issued = Claims::new(user_id.clone(), Some(tenant_id.as_u128()), config.jwt_expiration_secs, &config.clock);
    let claims = validate_decoded_token(&config, Ok(issued)).expect("valid");
    let auth_context = authenticate_claims(&config, claims, None).expect("auth");
    assert_eq!(auth_context.auth_method, AuthMethod::Jwt);
    assert_eq!(auth_context.user_id, user_id);
}

#[test]
fn test_authenticate_no_credentials() {
    let result = select_credentials(None, None);
    assert!(result.is_err());
    if let Err(e) = result {
        assert_eq!(e.code, ErrorCode::Unauthorized);
        assert_eq!(e.message, "Authentication required: provide X-API-Key or Authorization header");
    }
}

#[test]
fn non_bearer_authorization_is_refused() {
    let e = select_credentials(None, Some("Basic abc")).unwrap_err();
    assert_eq!(e.code, ErrorCode::InvalidToken);
    assert_eq!(e.message, "Authorization header must use Bearer scheme");
}

#[test]
fn test_check_tenant_access() {
    let tenant_id = new_uuid().as_u128();
    let auth_context = AuthContext::new("user123".to_string(), tenant_id, vec![], AuthMethod::ApiKey);
    assert!(check_tenant_access(&auth_context, tenant_id).is_ok());
    let other = new_uuid();
    let result = check_tenant_access(&auth_context, other.as_u128());
    assert!(result.is_err());
    if let Err(e) = result {
        assert_eq!(e.code, ErrorCode::Forbidden);
        assert_eq!(e.message, format!("Access denied to tenant {}", other));
    }
}

#[test]
fn tenant_ownership_refuses_other_and_missing_tenants() {
    let mine = new_uuid();
    let theirs = new_uuid();
    let ctx = AuthContext::new("u".to_string(), mine.as_u128(), vec![], AuthMethod::Jwt);
    assert!(validate_tenant_ownership(&ctx, Some(mine.as_u128())).is_ok());
    let e = validate_tenant_ownership(&ctx, Some(theirs.as_u128())).unwrap_err();
    assert_eq!(e.code, ErrorCode::Forbidden);
    assert_eq!(e.message, format!("Access denied: resource belongs to different tenant (expected {}, got {})", mine, theirs));
    let e = validate_tenant_ownership(&ctx, None).unwrap_err();
    assert_eq!(e.message, "Access denied: resource has no tenant association (legacy data)");
}

#[test]
fn test_auth_context_role_checks() {
    let auth_context = AuthContext::new(
        "user123".to_string(),
        new_uuid().as_u128(),
        vec!["admin".to_string(), "editor".to_string()],
        AuthMethod::Jwt,
    );
    assert!(auth_context.has_role("admin"));
    assert!(auth_context.has_role("editor"));
    assert!(!auth_context.has_role("viewer"));
    assert!(auth_context.has_any_role(&["admin", "viewer"]));
    assert!(!auth_context.has_any_role(&["viewer", "guest"]));
    assert!(auth_context.has_all_roles(&["admin", "editor"]));
    assert!(!auth_context.has_all_roles(&["admin", "viewer"]));
}

#[test]
fn test_claims_creation() {
    let user_id = "user123".to_string();
    let tenant_id = new_uuid();
    let clock = valid_clock();
    let claims = Claims::new(user_id.clone(), Some(tenant_id.as_u128()), 3600, &clock)
        .with_role("admin".to_string())
        .with_roles(vec!["editor".to_string(), "viewer".to_string()]);
    assert_eq!(claims.sub, user_id);
    assert_eq!(claims.tenant_id(), Some(tenant_id.as_u128()));
    assert_eq!(claims.roles.len(), 3);
    assert!(claims.roles.contains(&"admin".to_string()));
    assert!(!claims.is_expired(&clock));
    assert_eq!(claims.iat, 1704067200);
    assert_eq!(claims.exp, 1704067200 + 3600);
    assert_eq!(claims.tenant_id, Some(tenant_id.to_string()));
}

#[test]
fn test_production_validation_allows_secure_secret() {
    let mut config = AuthConfig::with_secret(INSECURE_DEFAULT_SECRET.to_string(), valid_clock());
    config.jwt_secret = JwtSecret::new("this-is-a-very-secure-secret-that-is-at-least-32-characters-long".to_string())
        .expect("test secret should be valid");
    assert!(config.validate_for_production(Some("production")).is_ok());
}

#[test]
fn test_production_validation_rejects_insecure_default() {
    let config = AuthConfig::with_secret(String::new(), valid_clock());
    let result = config.validate_for_production(Some("production"));
    assert!(result.is_err());
    let e = result.unwrap_err();
    assert_eq!(e.code, ErrorCode::InvalidInput);
    assert_eq!(
        e.message,
        "Cannot start server in production with insecure JWT secret. Set CALIBER_JWT_SECRET to a secure value. CALIBER_ENVIRONMENT=production"
    );
}

#[test]
fn test_production_validation_rejects_short_secret() {
    let mut config = AuthConfig::with_secret(INSECURE_DEFAULT_SECRET.to_string(), valid_clock());
    config.jwt_secret = JwtSecret::new("short".to_string()).expect("test secret should be valid");
    let e = config.validate_for_production(Some("PROD")).unwrap_err();
    assert_eq!(e.message, "JWT secret is too short for production use (5 chars). It must be at least 32 characters long.");
}

#[test]
fn test_production_validation_allows_development() {
    let config = AuthConfig::with_secret(INSECURE_DEFAULT_SECRET.to_string(), valid_clock());
    assert!(config.validate_for_production(Some("development")).is_ok());
}

#[test]
fn test_production_validation_without_env_var() {
    let config = AuthConfig::with_secret(INSECURE_DEFAULT_SECRET.to_string(), valid_clock());
    assert!(config.validate_for_production(None).is_ok());
}

#[test]
fn test_clock_skew_tolerance() {
    let mut config = test_config();
    config.jwt_clock_skew_secs = 60;
    let issued = Claims::new("user123".to_string(), None, config.jwt_expiration_secs, &config.clock);
    config.clock = FixedClock(config.clock.now_epoch_secs() + 30);
    assert!(validate_decoded_token(&config, Ok(issued)).is_ok());
}

#[test]
fn test_clock_skew_beyond_tolerance() {
    let mut config = test_config();
    config.jwt_clock_skew_secs = 60;
    config.jwt_expiration_secs = 100;
    let issued = Claims::new("user123".to_string(), None, config.jwt_expiration_secs, &config.clock);
    config.clock = FixedClock(config.clock.now_epoch_secs() + 200);
    let result = validate_decoded_token(&config, Ok(issued));
    assert!(result.is_err());
    if let Err(e) = result {
        assert_eq!(e.code, ErrorCode::TokenExpired);
    }
}

#[test]
fn test_pre_epoch_clock_fails_loud() {
    let mut config = test_config();
    let issued = Claims::new("user123".to_string(), None, config.jwt_expiration_secs, &config.clock);
    config.clock = FixedClock(-1000);
    let result = validate_decoded_token(&config, Ok(issued));
    assert!(result.is_err());
    if let Err(e) = result {
        assert_eq!(e.code, ErrorCode::InternalError);
        assert!(e.message.contains("time configuration error"));
    }
}

#[test]
fn decoder_refusals_become_invalid_token_errors() {
    let e = check_decoded_token(Err(TokenRejection::InvalidSignature), 10, 60).unwrap_err();
    assert_eq!(e.code, ErrorCode::InvalidToken);
    assert_eq!(e.message, "Token signature is invalid");
    let e = check_decoded_token(Err(TokenRejection::Other { reason: "bad base64".to_string() }), 10, 60).unwrap_err();
    assert_eq!(e.message, "Token validation failed: bad base64");
    let e = check_decoded_token(Err(TokenRejection::InvalidToken), 10, 60).unwrap_err();
    assert_eq!(e.message, "Token is invalid");
}

#[test]
fn claim_time_window() {
    assert!(validate_claim_times(100, 40, None, 60).is_ok());
    assert_eq!(validate_claim_times(100, 39, None, 60).unwrap_err().code, ErrorCode::TokenExpired);
    let e = validate_claim_times(100, 1000, Some(161), 60).unwrap_err();
    assert_eq!(e.code, ErrorCode::Unauthorized);
    assert_eq!(e.message, "Token not yet valid (nbf)");
    assert!(validate_claim_times(100, 1000, Some(160), 60).is_ok());
    assert!(validate_claim_times(0, 0, None, i64::MAX).is_ok());
    assert!(validate_claim_times(i64::MAX, i64::MAX, None, i64::MIN).is_err());
}

#[test]
fn secrets_and_providers() {
    assert_eq!(
        JwtSecret::new(String::new()).err(),
        Some(ConfigError::MissingRequired { field: "jwt_secret".to_string() })
    );
    assert!(build_jwt_secret("   ".to_string()).is_insecure_default());
    let s = build_jwt_secret("héllo".to_string());
    assert_eq!(s.expose(), "héllo");
    assert_eq!(s.len(), 6);
    assert!(!s.is_empty());
    assert_eq!(AuthProvider::parse("WorkOS"), AuthProvider::WorkOs);
    assert_eq!(AuthProvider::parse("jwt"), AuthProvider::Jwt);
    assert_eq!("anything".parse::<AuthProvider>(), Ok(AuthProvider::Jwt));
    assert_eq!(AuthProvider::default(), AuthProvider::Jwt);
}

#[test]
fn auth_config_from_settings() {
    let settings = Settings {
        entries: vec![
            ("CALIBER_API_KEYS".to_string(), " k1, k2 ,,k1".to_string()),
            ("CALIBER_AUTH_PROVIDER".to_string(), "WORKOS".to_string()),
            ("CALIBER_JWT_EXPIRATION_SECS".to_string(), "120".to_string()),
            ("CALIBER_REQUIRE_TENANT_HEADER".to_string(), "false".to_string()),
            ("CALIBER_WORKOS_CLIENT_ID".to_string(), "client".to_string()),
        ],
    };
    let config = AuthConfig::from_settings(&settings, valid_clock());
    assert!(config.is_valid_api_key("k1"));
    assert!(config.is_valid_api_key("k2"));
    assert!(!config.is_valid_api_key(""));
    assert_eq!(config.api_keys.len(), 2);
    assert_eq!(config.auth_provider, AuthProvider::WorkOs);
    assert_eq!(config.jwt_expiration_secs, 120);
    assert_eq!(config.jwt_clock_skew_secs, 60);
    assert!(!config.require_tenant_header);
    assert_eq!(config.workos_client_id, Some("client".to_string()));
    assert!(config.jwt_secret.is_insecure_default());
}

#[test]
fn secrets_are_shown_redacted() {
    let s = JwtSecret::new("hunter2".to_string()).expect("non-empty");
    assert_eq!(s.redacted_text(), "JwtSecret([REDACTED, 7 chars])");
}

#[test]
fn system_clock_reads_the_current_time() {
    let now = caliber::auth::SystemClock.now_epoch_secs();
    assert!(now > 1_600_000_000);
    let issued = Claims::new("u".to_string(), None, 60, &caliber::auth::SystemClock);
    assert!(issued.iat >= now);
    assert_eq!(issued.exp, issued.iat + 60);
}

#[test]
fn workos_provider_is_unavailable_in_this_build() {
    assert_eq!(check_auth_provider(AuthProvider::Jwt), Ok(()));
    let e = check_auth_provider(AuthProvider::WorkOs).unwrap_err();
    assert_eq!(e.code, ErrorCode::InternalError);
    assert_eq!(
        e.message,
        "WorkOS authentication provider selected but 'workos' feature is not enabled. Rebuild with --features workos or set CALIBER_AUTH_PROVIDER=jwt"
    );
}
