//! Building the configurations from settings read out of the environment.
//! A setting that is missing, or whose text does not parse, leaves the
//! default in place.

use vstd::prelude::*;
use crate::auth::{AuthConfig, AuthProvider, JwtClock, key_set, normalized_secret, provider_named, INSECURE_DEFAULT_SECRET};
use crate::config::{ApiConfig, ContextConfig, EndpointsConfig, IdempotencySettings, WebhookConfig};
use crate::constants::{
    DEFAULT_CONTEXT_MAX_ARTIFACTS, DEFAULT_CONTEXT_MAX_NOTES, DEFAULT_CONTEXT_MAX_SUMMARIES,
    DEFAULT_CONTEXT_MAX_TURNS, DEFAULT_CORS_MAX_AGE_SECS, DEFAULT_GRAPHQL_TOKEN_BUDGET,
    DEFAULT_IDEMPOTENCY_MAX_BODY_SIZE, DEFAULT_IDEMPOTENCY_TTL_SECS, DEFAULT_RATE_LIMIT_AUTHENTICATED,
    DEFAULT_RATE_LIMIT_BURST, DEFAULT_RATE_LIMIT_UNAUTHENTICATED, DEFAULT_REST_TOKEN_BUDGET,
    DEFAULT_WEBHOOK_SIGNATURE_TOLERANCE_SECS, DEFAULT_SAGA_BATCH_SIZE, DEFAULT_SAGA_CHECK_INTERVAL_SECS,
    DEFAULT_SAGA_DELEGATION_TIMEOUT_SECS, DEFAULT_SAGA_HANDOFF_TIMEOUT_SECS,
    DEFAULT_SAGA_IDEMPOTENCY_CLEANUP_INTERVAL_SECS,
};
use crate::db::DbConfig;
use crate::duration::Duration;
use crate::saga::SagaCleanupConfig;
use crate::error::{plain_error, ApiError, ApiResult, ErrorCode};
use crate::text::{decimal_text, owned, push_str, u64_to_string};
use crate::settings::{parse_u16, Settings, lookup, text_or, number_or, true_flag, unless_false_flag, comma_list,
    parsed_u64, parsed_u32, parsed_u16, parsed_usize, parsed_i32, parsed_i64, parsed_bool};

verus! {

impl EndpointsConfig {
    /// The endpoints named by the settings `CALIBER_API_BASE_URL`,
    /// `CALIBER_DOMAIN`, `CALIBER_DOCS_URL`, `CALIBER_LEMONSQUEEZY_API_URL` and
    /// `CALIBER_WORKOS_API_URL`, each defaulting as `default` does.
    pub fn from_settings(settings: &Settings) -> (c: Self)
        ensures
            c.api_base_url@ == text_or(lookup(settings.entries@, "CALIBER_API_BASE_URL"@), "http://localhost:3000"@),
            c.domain@ == text_or(lookup(settings.entries@, "CALIBER_DOMAIN"@), "http://localhost:3000"@),
            c.docs_url@ == text_or(lookup(settings.entries@, "CALIBER_DOCS_URL"@), "http://localhost:3000/docs"@),
            c.lemonsqueezy_api_url@ == text_or(lookup(settings.entries@, "CALIBER_LEMONSQUEEZY_API_URL"@),
                "https://api.lemonsqueezy.com"@),
            c.workos_api_url@ == text_or(lookup(settings.entries@, "CALIBER_WORKOS_API_URL"@), "https://api.workos.com"@),
    {
        EndpointsConfig {
            api_base_url: settings.text("CALIBER_API_BASE_URL", "http://localhost:3000"),
            domain: settings.text("CALIBER_DOMAIN", "http://localhost:3000"),
            docs_url: settings.text("CALIBER_DOCS_URL", "http://localhost:3000/docs"),
            lemonsqueezy_api_url: settings.text("CALIBER_LEMONSQUEEZY_API_URL", "https://api.lemonsqueezy.com"),
            workos_api_url: settings.text("CALIBER_WORKOS_API_URL", "https://api.workos.com"),
        }
    }
}

impl ApiConfig {
    /// The API configuration the settings give: allowed CORS origins from the
    /// comma-separated `CALIBER_CORS_ORIGINS` (none: allow all), credentials
    /// where `CALIBER_CORS_ALLOW_CREDENTIALS` reads `true`, the preflight age,
    /// rate limiting on unless `CALIBER_RATE_LIMIT_ENABLED` reads `false`, the
    /// three limits, and a one-minute window.
    pub fn from_settings(settings: &Settings) -> (c: Self)
        ensures
            c.cors_origins@.map_values(|t: String| t@) == match lookup(settings.entries@, "CALIBER_CORS_ORIGINS"@) {
                Some(t) => comma_list(t),
                None => Seq::<Seq<char>>::empty(),
            },
            c.cors_allow_credentials == true_flag(lookup(settings.entries@, "CALIBER_CORS_ALLOW_CREDENTIALS"@), false),
            c.cors_max_age_secs == number_or(lookup(settings.entries@, "CALIBER_CORS_MAX_AGE_SECS"@),
                |t: Seq<char>| parsed_u64(t), DEFAULT_CORS_MAX_AGE_SECS as int),
            c.rate_limit_enabled == unless_false_flag(lookup(settings.entries@, "CALIBER_RATE_LIMIT_ENABLED"@), true),
            c.rate_limit_unauthenticated == number_or(lookup(settings.entries@, "CALIBER_RATE_LIMIT_UNAUTHENTICATED"@),
                |t: Seq<char>| parsed_u32(t), DEFAULT_RATE_LIMIT_UNAUTHENTICATED as int),
            c.rate_limit_authenticated == number_or(lookup(settings.entries@, "CALIBER_RATE_LIMIT_AUTHENTICATED"@),
                |t: Seq<char>| parsed_u32(t), DEFAULT_RATE_LIMIT_AUTHENTICATED as int),
            c.rate_limit_burst == number_or(lookup(settings.entries@, "CALIBER_RATE_LIMIT_BURST"@),
                |t: Seq<char>| parsed_u32(t), DEFAULT_RATE_LIMIT_BURST as int),
            c.rate_limit_window.spec_secs() == 60,
    {
        ApiConfig {
            cors_origins: settings.list("CALIBER_CORS_ORIGINS"),
            cors_allow_credentials: settings.true_flag("CALIBER_CORS_ALLOW_CREDENTIALS", false),
            cors_max_age_secs: settings.u64_or("CALIBER_CORS_MAX_AGE_SECS", DEFAULT_CORS_MAX_AGE_SECS),
            rate_limit_enabled: settings.unless_false_flag("CALIBER_RATE_LIMIT_ENABLED", true),
            rate_limit_unauthenticated: settings.u32_or("CALIBER_RATE_LIMIT_UNAUTHENTICATED", DEFAULT_RATE_LIMIT_UNAUTHENTICATED),
            rate_limit_authenticated: settings.u32_or("CALIBER_RATE_LIMIT_AUTHENTICATED", DEFAULT_RATE_LIMIT_AUTHENTICATED),
            rate_limit_burst: settings.u32_or("CALIBER_RATE_LIMIT_BURST", DEFAULT_RATE_LIMIT_BURST),
            rate_limit_window: Duration::from_secs(60),
        }
    }
}

impl ContextConfig {
    /// The context budgets the `CALIBER_CONTEXT_*` settings give.
    pub fn from_settings(settings: &Settings) -> (c: Self)
        ensures
            c.rest_token_budget == number_or(lookup(settings.entries@, "CALIBER_CONTEXT_REST_TOKEN_BUDGET"@),
                |t: Seq<char>| parsed_i32(t), DEFAULT_REST_TOKEN_BUDGET as int),
            c.graphql_token_budget == number_or(lookup(settings.entries@, "CALIBER_CONTEXT_GRAPHQL_TOKEN_BUDGET"@),
                |t: Seq<char>| parsed_i32(t), DEFAULT_GRAPHQL_TOKEN_BUDGET as int),
            c.max_notes == number_or(lookup(settings.entries@, "CALIBER_CONTEXT_MAX_NOTES"@),
                |t: Seq<char>| parsed_usize(t), DEFAULT_CONTEXT_MAX_NOTES as int),
            c.max_artifacts == number_or(lookup(settings.entries@, "CALIBER_CONTEXT_MAX_ARTIFACTS"@),
                |t: Seq<char>| parsed_usize(t), DEFAULT_CONTEXT_MAX_ARTIFACTS as int),
            c.max_turns == number_or(lookup(settings.entries@, "CALIBER_CONTEXT_MAX_TURNS"@),
                |t: Seq<char>| parsed_usize(t), DEFAULT_CONTEXT_MAX_TURNS as int),
            c.max_summaries == number_or(lookup(settings.entries@, "CALIBER_CONTEXT_MAX_SUMMARIES"@),
                |t: Seq<char>| parsed_usize(t), DEFAULT_CONTEXT_MAX_SUMMARIES as int),
    {
        ContextConfig {
            rest_token_budget: settings.i32_or("CALIBER_CONTEXT_REST_TOKEN_BUDGET", DEFAULT_REST_TOKEN_BUDGET),
            graphql_token_budget: settings.i32_or("CALIBER_CONTEXT_GRAPHQL_TOKEN_BUDGET", DEFAULT_GRAPHQL_TOKEN_BUDGET),
            max_notes: settings.usize_or("CALIBER_CONTEXT_MAX_NOTES", DEFAULT_CONTEXT_MAX_NOTES),
            max_artifacts: settings.usize_or("CALIBER_CONTEXT_MAX_ARTIFACTS", DEFAULT_CONTEXT_MAX_ARTIFACTS),
            max_turns: settings.usize_or("CALIBER_CONTEXT_MAX_TURNS", DEFAULT_CONTEXT_MAX_TURNS),
            max_summaries: settings.usize_or("CALIBER_CONTEXT_MAX_SUMMARIES", DEFAULT_CONTEXT_MAX_SUMMARIES),
        }
    }
}

impl WebhookConfig {
    /// The webhook settings: the signature tolerance in seconds.
    pub fn from_settings(settings: &Settings) -> (c: Self)
        ensures
            c.signature_tolerance_secs == number_or(lookup(settings.entries@, "CALIBER_WEBHOOK_SIGNATURE_TOLERANCE_SECS"@),
                |t: Seq<char>| parsed_i64(t), DEFAULT_WEBHOOK_SIGNATURE_TOLERANCE_SECS as int),
    {
        WebhookConfig {
            signature_tolerance_secs: settings.i64_or("CALIBER_WEBHOOK_SIGNATURE_TOLERANCE_SECS",
                DEFAULT_WEBHOOK_SIGNATURE_TOLERANCE_SECS),
        }
    }
}

impl IdempotencySettings {
    /// The idempotency settings: key time-to-live, body size limit, and
    /// whether keys are required (where the setting reads `true`).
    pub fn from_settings(settings: &Settings) -> (c: Self)
        ensures
            c.ttl.spec_secs() == number_or(lookup(settings.entries@, "CALIBER_IDEMPOTENCY_TTL_SECS"@),
                |t: Seq<char>| parsed_u64(t), DEFAULT_IDEMPOTENCY_TTL_SECS as int),
            c.max_body_size == number_or(lookup(settings.entries@, "CALIBER_IDEMPOTENCY_MAX_BODY_SIZE"@),
                |t: Seq<char>| parsed_usize(t), DEFAULT_IDEMPOTENCY_MAX_BODY_SIZE as int),
            c.require_key == true_flag(lookup(settings.entries@, "CALIBER_IDEMPOTENCY_REQUIRE_KEY"@), false),
    {
        let ttl_secs = settings.u64_or("CALIBER_IDEMPOTENCY_TTL_SECS", DEFAULT_IDEMPOTENCY_TTL_SECS);
        let require_key = settings.true_flag("CALIBER_IDEMPOTENCY_REQUIRE_KEY", false);
        IdempotencySettings {
            ttl: Duration::from_secs(ttl_secs),
            max_body_size: settings.usize_or("CALIBER_IDEMPOTENCY_MAX_BODY_SIZE", DEFAULT_IDEMPOTENCY_MAX_BODY_SIZE),
            require_key,
        }
    }
}

impl SagaCleanupConfig {
    /// The saga cleanup settings: intervals and timeouts in seconds, the
    /// batch size, and logging of timeouts unless it reads `false`.
    pub fn from_settings(settings: &Settings) -> (c: Self)
        ensures
            c.check_interval.spec_secs() == number_or(lookup(settings.entries@, "CALIBER_SAGA_CHECK_INTERVAL_SECS"@),
                |t: Seq<char>| parsed_u64(t), DEFAULT_SAGA_CHECK_INTERVAL_SECS as int),
            c.delegation_timeout.spec_secs() == number_or(lookup(settings.entries@, "CALIBER_SAGA_DELEGATION_TIMEOUT_SECS"@),
                |t: Seq<char>| parsed_u64(t), DEFAULT_SAGA_DELEGATION_TIMEOUT_SECS as int),
            c.handoff_timeout.spec_secs() == number_or(lookup(settings.entries@, "CALIBER_SAGA_HANDOFF_TIMEOUT_SECS"@),
                |t: Seq<char>| parsed_u64(t), DEFAULT_SAGA_HANDOFF_TIMEOUT_SECS as int),
            c.batch_size == number_or(lookup(settings.entries@, "CALIBER_SAGA_BATCH_SIZE"@),
                |t: Seq<char>| parsed_usize(t), DEFAULT_SAGA_BATCH_SIZE as int),
            c.idempotency_cleanup_interval.spec_secs() == number_or(
                lookup(settings.entries@, "CALIBER_SAGA_IDEMPOTENCY_CLEANUP_INTERVAL_SECS"@),
                |t: Seq<char>| parsed_u64(t), DEFAULT_SAGA_IDEMPOTENCY_CLEANUP_INTERVAL_SECS as int),
            c.log_timeouts == unless_false_flag(lookup(settings.entries@, "CALIBER_SAGA_LOG_TIMEOUTS"@), true),
    {
        SagaCleanupConfig {
            check_interval: Duration::from_secs(settings.u64_or("CALIBER_SAGA_CHECK_INTERVAL_SECS",
                DEFAULT_SAGA_CHECK_INTERVAL_SECS)),
            delegation_timeout: Duration::from_secs(settings.u64_or("CALIBER_SAGA_DELEGATION_TIMEOUT_SECS",
                DEFAULT_SAGA_DELEGATION_TIMEOUT_SECS)),
            handoff_timeout: Duration::from_secs(settings.u64_or("CALIBER_SAGA_HANDOFF_TIMEOUT_SECS",
                DEFAULT_SAGA_HANDOFF_TIMEOUT_SECS)),
            batch_size: settings.usize_or("CALIBER_SAGA_BATCH_SIZE", DEFAULT_SAGA_BATCH_SIZE),
            idempotency_cleanup_interval: Duration::from_secs(settings.u64_or(
                "CALIBER_SAGA_IDEMPOTENCY_CLEANUP_INTERVAL_SECS", DEFAULT_SAGA_IDEMPOTENCY_CLEANUP_INTERVAL_SECS)),
            log_timeouts: settings.unless_false_flag("CALIBER_SAGA_LOG_TIMEOUTS", true),
        }
    }
}

impl DbConfig {
    /// The database settings `CALIBER_DB_*`, each defaulting as `default` does.
    pub fn from_settings(settings: &Settings) -> (c: Self)
        ensures
            c.host@ == text_or(lookup(settings.entries@, "CALIBER_DB_HOST"@), "localhost"@),
            c.port == number_or(lookup(settings.entries@, "CALIBER_DB_PORT"@), |t: Seq<char>| parsed_u16(t), 5432),
            c.dbname@ == text_or(lookup(settings.entries@, "CALIBER_DB_NAME"@), "caliber"@),
            c.user@ == text_or(lookup(settings.entries@, "CALIBER_DB_USER"@), "postgres"@),
            c.password@ == text_or(lookup(settings.entries@, "CALIBER_DB_PASSWORD"@), ""@),
            c.max_size == number_or(lookup(settings.entries@, "CALIBER_DB_POOL_SIZE"@), |t: Seq<char>| parsed_usize(t), 16),
            c.timeout.spec_secs() == number_or(lookup(settings.entries@, "CALIBER_DB_TIMEOUT"@),
                |t: Seq<char>| parsed_u64(t), 30),
    {
        DbConfig {
            host: settings.text("CALIBER_DB_HOST", "localhost"),
            port: settings.u16_or("CALIBER_DB_PORT", 5432),
            dbname: settings.text("CALIBER_DB_NAME", "caliber"),
            user: settings.text("CALIBER_DB_USER", "postgres"),
            password: settings.text("CALIBER_DB_PASSWORD", ""),
            max_size: settings.usize_or("CALIBER_DB_POOL_SIZE", 16),
            timeout: Duration::from_secs(settings.u64_or("CALIBER_DB_TIMEOUT", 30)),
        }
    }
}

impl<C: JwtClock> AuthConfig<C> {
    /// The authentication configuration the settings give: the API keys of
    /// the comma-separated `CALIBER_API_KEYS`, the provider named by
    /// `CALIBER_AUTH_PROVIDER`, the secret (the insecure default where unset
    /// or blank), expiry and skew in seconds, whether the tenant header is
    /// required, and the WorkOS settings.
    pub fn from_settings(settings: &Settings, clock: C) -> (c: Self)
        ensures
            key_set(c.api_keys@) == match lookup(settings.entries@, "CALIBER_API_KEYS"@) {
                Some(t) => comma_list(t).to_set(),
                None => Set::<Seq<char>>::empty(),
            },
            c.auth_provider == match lookup(settings.entries@, "CALIBER_AUTH_PROVIDER"@) {
                Some(t) => provider_named(t),
                None => AuthProvider::Jwt,
            },
            c.jwt_secret@ == normalized_secret(text_or(lookup(settings.entries@, "CALIBER_JWT_SECRET"@),
                INSECURE_DEFAULT_SECRET@)),
            c.jwt_expiration_secs == number_or(lookup(settings.entries@, "CALIBER_JWT_EXPIRATION_SECS"@),
                |t: Seq<char>| parsed_i64(t), 3600),
            c.jwt_clock_skew_secs == number_or(lookup(settings.entries@, "CALIBER_JWT_CLOCK_SKEW_SECS"@),
                |t: Seq<char>| parsed_i64(t), 60),
            c.require_tenant_header == match lookup(settings.entries@, "CALIBER_REQUIRE_TENANT_HEADER"@) {
                Some(t) => match parsed_bool(t) {
                    Some(b) => b,
                    None => true,
                },
                None => true,
            },
            crate::auth::opt_text(c.workos_client_id) == lookup(settings.entries@, "CALIBER_WORKOS_CLIENT_ID"@),
            crate::auth::opt_text(c.workos_api_key) == lookup(settings.entries@, "CALIBER_WORKOS_API_KEY"@),
            crate::auth::opt_text(c.workos_redirect_uri) == lookup(settings.entries@, "CALIBER_WORKOS_REDIRECT_URI"@),
            c.clock == clock,
    {
        let secret = settings.text("CALIBER_JWT_SECRET", INSECURE_DEFAULT_SECRET);
        let mut c = AuthConfig::with_secret(secret, clock);
        let keys = settings.list("CALIBER_API_KEYS");
        let ghost items = keys@.map_values(|t: String| t@);
        let mut i: usize = 0;
        while i < keys.len()
            invariant
                i <= keys@.len(),
                items == keys@.map_values(|t: String| t@),
                key_set(c.api_keys@) == items.take(i as int).to_set(),
                c.jwt_secret@ == normalized_secret(text_or(lookup(settings.entries@, "CALIBER_JWT_SECRET"@),
                    INSECURE_DEFAULT_SECRET@)),
                c.clock == clock,
            decreases keys@.len() - i,
        {
            c.add_api_key(keys[i].clone());
            assert(items.take(i + 1) =~= items.take(i as int).push(keys@[i as int]@));
            proof { items.take(i as int).lemma_push_to_set_commute(keys@[i as int]@); }
            i = i + 1;
        }
        assert(items.take(keys@.len() as int) =~= items);
        c.auth_provider = match settings.get("CALIBER_AUTH_PROVIDER") {
            Some(t) => AuthProvider::parse(t),
            None => AuthProvider::Jwt,
        };
        c.jwt_expiration_secs = settings.i64_or("CALIBER_JWT_EXPIRATION_SECS", 3600);
        c.jwt_clock_skew_secs = settings.i64_or("CALIBER_JWT_CLOCK_SKEW_SECS", 60);
        c.require_tenant_header = settings.bool_or("CALIBER_REQUIRE_TENANT_HEADER", true);
        c.workos_client_id = settings.optional_text("CALIBER_WORKOS_CLIENT_ID");
        c.workos_api_key = settings.optional_text("CALIBER_WORKOS_API_KEY");
        c.workos_redirect_uri = settings.optional_text("CALIBER_WORKOS_REDIRECT_URI");
        c
    }
}

/// The port text of the settings: `PORT`, else `CALIBER_API_PORT`, else `3000`.
pub open spec fn port_text(entries: Seq<(String, String)>) -> Seq<char> {
    match lookup(entries, "PORT"@) {
        Some(p) => p,
        None => text_or(lookup(entries, "CALIBER_API_PORT"@), "3000"@),
    }
}

/// The address the service binds to, as `host:port` text: the host of
/// `CALIBER_API_BIND` (default `0.0.0.0`) and the port of `port_text`,
/// written as its number. A port text that is no 16-bit number is invalid
/// input.
pub fn bind_address(settings: &Settings) -> (r: ApiResult<String>)
    ensures
        match parsed_u16(port_text(settings.entries@)) {
            Some(port) => r matches Ok(a) && a@ == text_or(lookup(settings.entries@, "CALIBER_API_BIND"@), "0.0.0.0"@)
                + ":"@ + decimal_text(port as nat),
            None => r matches Err(e) && plain_error(e, ErrorCode::InvalidInput,
                "Invalid port value: "@ + port_text(settings.entries@)),
        },
{
    let host = settings.text("CALIBER_API_BIND", "0.0.0.0");
    let port_str = match settings.get("PORT") {
        Some(p) => owned(p),
        None => settings.text("CALIBER_API_PORT", "3000"),
    };
    match parse_u16(port_str.as_str()) {
        Some(port) => {
            let mut addr = host;
            push_str(&mut addr, ":");
            let digits = u64_to_string(port as u64);
            push_str(&mut addr, digits.as_str());
            Ok(addr)
        },
        None => {
            let mut m = owned("Invalid port value: ");
            push_str(&mut m, port_str.as_str());
            Err(ApiError::invalid_input(m.as_str()))
        },
    }
}

} // verus!
