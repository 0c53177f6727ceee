use caliber::component::{create_query, delete_query, get_query, list_query, update_query, ListFilter, NoFilter};
use caliber::config::{ApiConfig, ContextConfig, EndpointsConfig, IdempotencySettings, WebhookConfig};
use caliber::constants::{
    DEFAULT_CORS_MAX_AGE_SECS, DEFAULT_RATE_LIMIT_AUTHENTICATED, DEFAULT_RATE_LIMIT_BURST,
    DEFAULT_RATE_LIMIT_UNAUTHENTICATED, DEFAULT_REST_TOKEN_BUDGET,
};
use caliber::db::DbConfig;
use caliber::duration::Duration;
use caliber::idempotency::{IdempotencyConfig, DEFAULT_TTL_SECS, MAX_BODY_HASH_SIZE};
use caliber::config_load::bind_address;
use caliber::error::ErrorCode;
use caliber::settings::Settings;

fn settings(pairs: &[(&str, &str)]) -> Settings {
    Settings { entries: pairs.iter().map(|(k, v)| (k.to_string(), v.to_string())).collect() }
}

#[test]
fn test_no_filter_defaults() {
    let filter = NoFilter::default();
    assert_eq!(filter.limit(), 100);
    assert_eq!(filter.offset(), 0);
}

#[test]
fn test_default_config() {
    let config = ApiConfig::default();
    assert!(config.cors_origins.is_empty());
    assert!(!config.cors_allow_credentials);
    assert_eq!(config.cors_max_age_secs, DEFAULT_CORS_MAX_AGE_SECS);
    assert!(config.rate_limit_enabled);
    assert_eq!(config.rate_limit_unauthenticated, DEFAULT_RATE_LIMIT_UNAUTHENTICATED);
    assert_eq!(config.rate_limit_authenticated, DEFAULT_RATE_LIMIT_AUTHENTICATED);
    assert_eq!(config.rate_limit_burst, DEFAULT_RATE_LIMIT_BURST);
}

#[test]
fn test_is_production() {
    let mut config = ApiConfig::default();
    assert!(!config.is_production());
    config.cors_origins = vec!["https://caliber.run".to_string()];
    assert!(config.is_production());
}

#[test]
fn test_origin_allowed_dev_mode() {
    let config = ApiConfig::default();
    assert!(config.is_origin_allowed("https://anything.com"));
    assert!(config.is_origin_allowed("http://localhost:3000"));
}

#[test]
fn test_origin_allowed_production() {
    let config = ApiConfig {
        cors_origins: vec!["https://caliber.run".to_string(), "https://app.caliber.run".to_string()],
        ..Default::default()
    };
    assert!(config.is_origin_allowed("https://caliber.run"));
    assert!(config.is_origin_allowed("https://app.caliber.run"));
    assert!(!config.is_origin_allowed("https://evil.com"));
    assert!(!config.is_origin_allowed("https://notcaliber.run"));
}

#[test]
fn test_wildcard_subdomain() {
    let config = ApiConfig { cors_origins: vec!["*.caliber.run".to_string()], ..Default::default() };
    assert!(config.is_origin_allowed("https://app.caliber.run"));
    assert!(config.is_origin_allowed("https://api.caliber.run"));
    assert!(!config.is_origin_allowed("https://evil.com"));
}

#[test]
fn wildcard_also_admits_the_bare_domain_over_https_only() {
    let config = ApiConfig { cors_origins: vec!["*.caliber.run".to_string()], ..Default::default() };
    assert!(config.is_origin_allowed("https://caliber.run"));
    assert!(!config.is_origin_allowed("http://app.caliber.run"));
}

#[test]
fn test_endpoints_default_config() {
    let config = EndpointsConfig::default();
    assert_eq!(config.api_base_url, "http://localhost:3000");
    assert_eq!(config.domain, "http://localhost:3000");
    assert_eq!(config.docs_url, "http://localhost:3000/docs");
    assert_eq!(config.lemonsqueezy_api_url, "https://api.lemonsqueezy.com");
    assert_eq!(config.workos_api_url, "https://api.workos.com");
}

#[test]
fn test_endpoints_is_production() {
    let mut config = EndpointsConfig::default();
    assert!(!config.is_production());
    config.api_base_url = "https://api.caliber.run".to_string();
    assert!(config.is_production());
    config.api_base_url = "http://127.0.0.1:3000".to_string();
    assert!(!config.is_production());
}

#[test]
fn test_endpoints_billing_success_redirect() {
    let mut config = EndpointsConfig::default();
    assert_eq!(config.billing_success_redirect(), "http://localhost:3000/dashboard/settings");
    config.domain = "https://caliber.run".to_string();
    assert_eq!(config.billing_success_redirect(), "https://caliber.run/dashboard/settings");
}

#[test]
fn test_endpoints_workos_callback_url() {
    let mut config = EndpointsConfig::default();
    assert_eq!(config.workos_callback_url(), "http://localhost:3000/auth/sso/callback");
    config.api_base_url = "https://api.caliber.run".to_string();
    assert_eq!(config.workos_callback_url(), "https://api.caliber.run/auth/sso/callback");
}

#[test]
fn test_idempotency_config_default() {
    let config = IdempotencyConfig::default();
    assert_eq!(config.ttl, Duration::from_secs(DEFAULT_TTL_SECS));
    assert_eq!(config.max_body_size, MAX_BODY_HASH_SIZE);
    assert!(!config.require_key);
}

#[test]
fn idempotency_settings_carry_over_to_the_middleware() {
    let s = IdempotencySettings::from_settings(&settings(&[
        ("CALIBER_IDEMPOTENCY_TTL_SECS", "60"),
        ("CALIBER_IDEMPOTENCY_REQUIRE_KEY", "TRUE"),
    ]));
    let m = s.to_middleware_config();
    assert_eq!(m.ttl.as_secs(), 60);
    assert_eq!(m.max_body_size, 1048576);
    assert!(m.require_key);
    assert_eq!(m.ttl_interval(), "60 seconds");
}

#[test]
fn api_config_from_settings_parses_and_defaults() {
    let c = ApiConfig::from_settings(&settings(&[
        ("CALIBER_CORS_ORIGINS", " https://a.run , ,https://b.run,"),
        ("CALIBER_CORS_ALLOW_CREDENTIALS", "True"),
        ("CALIBER_CORS_MAX_AGE_SECS", "not-a-number"),
        ("CALIBER_RATE_LIMIT_ENABLED", "FALSE"),
        ("CALIBER_RATE_LIMIT_BURST", "+25"),
        ("CALIBER_RATE_LIMIT_AUTHENTICATED", "-5"),
    ]));
    assert_eq!(c.cors_origins, vec!["https://a.run".to_string(), "https://b.run".to_string()]);
    assert!(c.cors_allow_credentials);
    assert_eq!(c.cors_max_age_secs, DEFAULT_CORS_MAX_AGE_SECS);
    assert!(!c.rate_limit_enabled);
    assert_eq!(c.rate_limit_burst, 25);
    assert_eq!(c.rate_limit_authenticated, DEFAULT_RATE_LIMIT_AUTHENTICATED);
    assert_eq!(c.rate_limit_unauthenticated, DEFAULT_RATE_LIMIT_UNAUTHENTICATED);
    assert_eq!(c.rate_limit_window.as_secs(), 60);
}

#[test]
fn empty_settings_give_the_defaults() {
    let empty = Settings::empty();
    let c = ApiConfig::from_settings(&empty);
    assert!(c.cors_origins.is_empty());
    assert!(c.rate_limit_enabled);
    let e = EndpointsConfig::from_settings(&empty);
    assert_eq!(e.api_base_url, "http://localhost:3000");
    let ctx = ContextConfig::from_settings(&empty);
    assert_eq!(ctx.rest_token_budget, DEFAULT_REST_TOKEN_BUDGET);
    let w = WebhookConfig::from_settings(&empty);
    assert_eq!(w.signature_tolerance_secs, 300);
    let d = DbConfig::from_settings(&empty);
    assert_eq!(d.host, "localhost");
    assert_eq!(d.port, 5432);
    assert_eq!(d.max_size, 16);
    assert_eq!(d.timeout.as_secs(), 30);
}

#[test]
fn numeric_settings_follow_from_str_rules() {
    let ctx = ContextConfig::from_settings(&settings(&[
        ("CALIBER_CONTEXT_REST_TOKEN_BUDGET", "-12"),
        ("CALIBER_CONTEXT_MAX_NOTES", " 7"),
        ("CALIBER_CONTEXT_MAX_TURNS", "3"),
    ]));
    assert_eq!(ctx.rest_token_budget, -12);
    assert_eq!(ctx.max_notes, 10);
    assert_eq!(ctx.max_turns, 3);
    let d = DbConfig::from_settings(&settings(&[("CALIBER_DB_PORT", "70000"), ("CALIBER_DB_HOST", "db")]));
    assert_eq!(d.port, 5432);
    assert_eq!(d.host, "db");
    let w = WebhookConfig::from_settings(&settings(&[("CALIBER_WEBHOOK_SIGNATURE_TOLERANCE_SECS", "-9223372036854775808")]));
    assert_eq!(w.signature_tolerance_secs, i64::MIN);
}

#[test]
fn first_setting_of_a_name_wins() {
    let s = settings(&[("A", "1"), ("A", "2")]);
    assert_eq!(s.get("A"), Some("1"));
    assert_eq!(s.get("B"), None);
}

#[test]
fn bind_address_from_settings() {
    assert_eq!(bind_address(&settings(&[])), Ok("0.0.0.0:3000".to_string()));
    assert_eq!(
        bind_address(&settings(&[("CALIBER_API_BIND", "127.0.0.1"), ("CALIBER_API_PORT", "8080")])),
        Ok("127.0.0.1:8080".to_string())
    );
    assert_eq!(
        bind_address(&settings(&[("CALIBER_API_PORT", "8080"), ("PORT", "+0081")])),
        Ok("0.0.0.0:81".to_string())
    );
    let e = bind_address(&settings(&[("PORT", "70000")])).unwrap_err();
    assert_eq!(e.code, ErrorCode::InvalidInput);
    assert_eq!(e.message, "Invalid port value: 70000");
}

#[test]
fn generic_entity_queries() {
    assert_eq!(create_query("note", 3), "SELECT row_to_json(t.*) FROM caliber_note_create($1, $2, $3) AS t");
    assert_eq!(create_query("note", 1), "SELECT row_to_json(t.*) FROM caliber_note_create($1) AS t");
    assert_eq!(create_query("note", 0), "SELECT row_to_json(t.*) FROM caliber_note_create($1) AS t");
    assert_eq!(get_query("agent"), "SELECT row_to_json(t.*) FROM caliber_agent_get($1, $2) AS t");
    assert_eq!(update_query("agent"), "SELECT row_to_json(t.*) FROM caliber_agent_update($1, $2, $3) AS t");
    assert_eq!(delete_query("edge"), "SELECT caliber_edge_delete($1, $2)");
    assert_eq!(
        list_query("lock", Some("tenant_id = $1"), 100, 0),
        "SELECT row_to_json(t.*) FROM caliber_lock t WHERE tenant_id = $1 ORDER BY created_at DESC LIMIT 100 OFFSET 0"
    );
    assert_eq!(
        list_query("lock", None, -1, 20),
        "SELECT row_to_json(t.*) FROM caliber_lock t WHERE TRUE ORDER BY created_at DESC LIMIT -1 OFFSET 20"
    );
}
