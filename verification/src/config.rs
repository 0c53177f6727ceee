//! API configuration: external endpoints, CORS and rate limiting, context
//! assembly, webhooks and idempotency.

use vstd::prelude::*;
use crate::constants::{
    DEFAULT_CONTEXT_MAX_ARTIFACTS, DEFAULT_CONTEXT_MAX_NOTES, DEFAULT_CONTEXT_MAX_SUMMARIES,
    DEFAULT_CONTEXT_MAX_TURNS, DEFAULT_CORS_MAX_AGE_SECS, DEFAULT_GRAPHQL_TOKEN_BUDGET,
    DEFAULT_IDEMPOTENCY_MAX_BODY_SIZE, DEFAULT_IDEMPOTENCY_TTL_SECS, DEFAULT_RATE_LIMIT_AUTHENTICATED,
    DEFAULT_RATE_LIMIT_BURST, DEFAULT_RATE_LIMIT_UNAUTHENTICATED, DEFAULT_REST_TOKEN_BUDGET,
    DEFAULT_WEBHOOK_SIGNATURE_TOLERANCE_SECS,
};
use crate::duration::Duration;
use crate::idempotency::IdempotencyConfig;
use crate::text::{contains, contains_seq, has_prefix, has_suffix, owned, push_str, str_eq, starts_with, ends_with};

verus! {

/// `http://localhost:3000`
pub open spec fn local_base_text() -> Seq<char> {
    "http://localhost:3000"@
}

/// Configuration for external service URLs and endpoints.
#[derive(Debug, Clone)]
pub struct EndpointsConfig {
    /// Base URL for the Caliber API (e.g., "https://api.caliber.run").
    pub api_base_url: String,
    /// Main domain for Caliber (e.g., "https://caliber.run").
    pub domain: String,
    /// Documentation URL (e.g., "https://docs.caliber.run").
    pub docs_url: String,
    /// LemonSqueezy API base URL.
    pub lemonsqueezy_api_url: String,
    /// WorkOS API base URL.
    pub workos_api_url: String,
}

impl Default for EndpointsConfig {
    /// Development defaults: the Caliber URLs point at localhost, the
    /// third-party services at their production URLs.
    fn default() -> (c: Self)
        ensures
            c.api_base_url@ == "http://localhost:3000"@,
            c.domain@ == "http://localhost:3000"@,
            c.docs_url@ == "http://localhost:3000/docs"@,
            c.lemonsqueezy_api_url@ == "https://api.lemonsqueezy.com"@,
            c.workos_api_url@ == "https://api.workos.com"@,
    {
        EndpointsConfig {
            api_base_url: owned("http://localhost:3000"),
            domain: owned("http://localhost:3000"),
            docs_url: owned("http://localhost:3000/docs"),
            lemonsqueezy_api_url: owned("https://api.lemonsqueezy.com"),
            workos_api_url: owned("https://api.workos.com"),
        }
    }
}

/// An endpoint configuration is for production when its API base URL names
/// neither `localhost` nor `127.0.0.1`.
pub open spec fn endpoints_in_production(c: EndpointsConfig) -> bool {
    !contains_seq(c.api_base_url@, "localhost"@) && !contains_seq(c.api_base_url@, "127.0.0.1"@)
}

impl EndpointsConfig {
    /// Get the default redirect URL for billing success: the dashboard
    /// settings page on the configured domain.
    pub fn billing_success_redirect(&self) -> (s: String)
        ensures
            s@ == self.domain@ + "/dashboard/settings"@,
    {
        let mut s = self.domain.clone();
        push_str(&mut s, "/dashboard/settings");
        s
    }

    /// Get the SSO callback URL for WorkOS.
    pub fn workos_callback_url(&self) -> (s: String)
        ensures
            s@ == self.api_base_url@ + "/auth/sso/callback"@,
    {
        let mut s = self.api_base_url.clone();
        push_str(&mut s, "/auth/sso/callback");
        s
    }

    /// Check if running in production mode (non-localhost URLs).
    pub fn is_production(&self) -> (b: bool)
        ensures
            b == endpoints_in_production(*self),
    {
        !contains(self.api_base_url.as_str(), "localhost") && !contains(self.api_base_url.as_str(), "127.0.0.1")
    }
}

/// API configuration for CORS, rate limiting, and production hardening.
#[derive(Debug, Clone)]
pub struct ApiConfig {
    /// Allowed CORS origins. Empty means allow all origins (dev mode).
    pub cors_origins: Vec<String>,
    /// Whether to allow credentials in CORS requests.
    pub cors_allow_credentials: bool,
    /// Max age for CORS preflight cache in seconds.
    pub cors_max_age_secs: u64,
    /// Whether rate limiting is enabled.
    pub rate_limit_enabled: bool,
    /// Rate limit for unauthenticated requests (per IP, per minute).
    pub rate_limit_unauthenticated: u32,
    /// Rate limit for authenticated requests (per tenant, per minute).
    pub rate_limit_authenticated: u32,
    /// Burst capacity (allow this many requests beyond the limit temporarily).
    pub rate_limit_burst: u32,
    /// Window size for rate limiting.
    pub rate_limit_window: Duration,
}

impl Default for ApiConfig {
    /// Permissive CORS for development, rate limiting on with the default limits
    /// over a one-minute window.
    fn default() -> (c: Self)
        ensures
            c.cors_origins@.len() == 0,
            !c.cors_allow_credentials,
            c.cors_max_age_secs == DEFAULT_CORS_MAX_AGE_SECS,
            c.rate_limit_enabled,
            c.rate_limit_unauthenticated == DEFAULT_RATE_LIMIT_UNAUTHENTICATED,
            c.rate_limit_authenticated == DEFAULT_RATE_LIMIT_AUTHENTICATED,
            c.rate_limit_burst == DEFAULT_RATE_LIMIT_BURST,
            c.rate_limit_window.spec_secs() == 60,
    {
        ApiConfig {
            cors_origins: Vec::new(),
            cors_allow_credentials: false,
            cors_max_age_secs: DEFAULT_CORS_MAX_AGE_SECS,
            rate_limit_enabled: true,
            rate_limit_unauthenticated: DEFAULT_RATE_LIMIT_UNAUTHENTICATED,
            rate_limit_authenticated: DEFAULT_RATE_LIMIT_AUTHENTICATED,
            rate_limit_burst: DEFAULT_RATE_LIMIT_BURST,
            rate_limit_window: Duration::from_secs(60),
        }
    }
}

/// The host part of a wildcard pattern `*.<pattern>` that an origin may also
/// equal exactly: the pattern without one leading dot.
pub open spec fn bare_pattern(pattern: Seq<char>) -> Seq<char> {
    if has_prefix(pattern, seq!['.']) { pattern.skip(1) } else { pattern }
}

/// Whether the allowed-origin entry `allowed` admits `origin`: they are
/// equal, or `allowed` is a wildcard `*.<pattern>`, `origin` is an `https://`
/// origin, and its host ends with `<pattern>` or equals it.
pub open spec fn origin_matches(allowed: Seq<char>, origin: Seq<char>) -> bool {
    ||| allowed == origin
    ||| {
        &&& has_prefix(allowed, "*."@)
        &&& has_prefix(origin, "https://"@)
        &&& {
            let pattern = allowed.skip(2);
            let host = origin.skip(8);
            has_suffix(host, pattern) || host == bare_pattern(pattern)
        }
    }
}

/// Whether a configuration admits `origin`: every origin when no origins
/// are configured (dev mode), otherwise those that some entry admits.
pub open spec fn origin_allowed(origins: Seq<String>, origin: Seq<char>) -> bool {
    origins.len() == 0 || exists|i: int| 0 <= i < origins.len() && origin_matches(#[trigger] origins[i]@, origin)
}

fn entry_matches(allowed: &str, origin: &str) -> (b: bool)
    ensures
        b == origin_matches(allowed@, origin@),
{
    proof {
        reveal_strlit("*.");
        reveal_strlit("https://");
    }
    if str_eq(allowed, origin) {
        return true;
    }
    if starts_with(allowed, "*.") && starts_with(origin, "https://") {
        let a = crate::text::chars_of(allowed);
        let o = crate::text::chars_of(origin);
        let pattern = crate::text::string_of(&skip_chars(&a, 2));
        let host = crate::text::string_of(&skip_chars(&o, 8));
        if ends_with(host.as_str(), pattern.as_str()) {
            return true;
        }
        let p = crate::text::chars_of(pattern.as_str());
        proof {
            reveal_strlit(".");
            assert("."@ =~= seq!['.']);
        }
        let bare = if starts_with(pattern.as_str(), ".") {
            crate::text::string_of(&skip_chars(&p, 1))
        } else {
            pattern.clone()
        };
        return str_eq(host.as_str(), bare.as_str());
    }
    false
}

/// The characters of `v` after the first `n`.
fn skip_chars(v: &Vec<char>, n: usize) -> (r: Vec<char>)
    requires
        n <= v@.len(),
    ensures
        r@ == v@.skip(n as int),
{
    let mut r: Vec<char> = Vec::new();
    let mut i: usize = n;
    while i < v.len()
        invariant
            n <= i <= v@.len(),
            r@ == v@.subrange(n as int, i as int),
        decreases v.len() - i,
    {
        r.push(v[i]);
        assert(v@.subrange(n as int, i + 1) =~= v@.subrange(n as int, i as int).push(v@[i as int]));
        i = i + 1;
    }
    assert(v@.subrange(n as int, v@.len() as int) =~= v@.skip(n as int));
    r
}

impl ApiConfig {
    /// Check if running in production mode (strict CORS): some origin is configured.
    pub fn is_production(&self) -> (b: bool)
        ensures
            b == (self.cors_origins@.len() > 0),
    {
        self.cors_origins.len() > 0
    }

    /// Check if a given origin is allowed.
    pub fn is_origin_allowed(&self, origin: &str) -> (b: bool)
        ensures
            b == origin_allowed(self.cors_origins@, origin@),
    {
        if self.cors_origins.len() == 0 {
            return true;
        }
        let mut i: usize = 0;
        while i < self.cors_origins.len()
            invariant
                i <= self.cors_origins@.len(),
                forall|j: int| 0 <= j < i ==> !origin_matches(#[trigger] self.cors_origins@[j]@, origin@),
            decreases self.cors_origins.len() - i,
        {
            if entry_matches(self.cors_origins[i].as_str(), origin) {
                return true;
            }
            i = i + 1;
        }
        false
    }
}

/// With no origins configured (not production), every origin is allowed.
pub proof fn lemma_dev_mode_allows_every_origin(origins: Seq<String>, origin: Seq<char>)
    requires
        origins.len() == 0,
    ensures
        origin_allowed(origins, origin),
{
}

/// An origin listed verbatim is always allowed.
pub proof fn lemma_listed_origin_allowed(origins: Seq<String>, i: int)
    requires
        0 <= i < origins.len(),
    ensures
        origin_allowed(origins, origins[i]@),
{
    assert(origin_matches(origins[i]@, origins[i]@));
}

/// Wildcard entries admit only `https://` origins: an origin that is not
/// `https://` is allowed in production only where it is listed verbatim.
pub proof fn lemma_wildcards_need_https(origins: Seq<String>, origin: Seq<char>)
    requires
        origins.len() > 0,
        !has_prefix(origin, "https://"@),
    ensures
        origin_allowed(origins, origin) <==> exists|i: int| 0 <= i < origins.len() && #[trigger] origins[i]@ == origin,
{
    if origin_allowed(origins, origin) {
        let i = choose|i: int| 0 <= i < origins.len() && origin_matches(#[trigger] origins[i]@, origin);
        assert(origins[i]@ == origin);
    }
    if exists|i: int| 0 <= i < origins.len() && #[trigger] origins[i]@ == origin {
        let i = choose|i: int| 0 <= i < origins.len() && #[trigger] origins[i]@ == origin;
        assert(origin_matches(origins[i]@, origin));
    }
}

/// Configuration for context assembly operations.
#[derive(Debug, Clone)]
pub struct ContextConfig {
    /// Default token budget for REST endpoints
    pub rest_token_budget: i32,
    /// Default token budget for GraphQL endpoints
    pub graphql_token_budget: i32,
    /// Maximum number of notes to include by default
    pub max_notes: usize,
    /// Maximum number of artifacts to include by default
    pub max_artifacts: usize,
    /// Maximum number of conversation turns to include by default
    pub max_turns: usize,
    /// Maximum number of scope summaries to include by default
    pub max_summaries: usize,
}

impl Default for ContextConfig {
    fn default() -> (c: Self)
        ensures
            c.rest_token_budget == DEFAULT_REST_TOKEN_BUDGET,
            c.graphql_token_budget == DEFAULT_GRAPHQL_TOKEN_BUDGET,
            c.max_notes == DEFAULT_CONTEXT_MAX_NOTES,
            c.max_artifacts == DEFAULT_CONTEXT_MAX_ARTIFACTS,
            c.max_turns == DEFAULT_CONTEXT_MAX_TURNS,
            c.max_summaries == DEFAULT_CONTEXT_MAX_SUMMARIES,
    {
        ContextConfig {
            rest_token_budget: DEFAULT_REST_TOKEN_BUDGET,
            graphql_token_budget: DEFAULT_GRAPHQL_TOKEN_BUDGET,
            max_notes: DEFAULT_CONTEXT_MAX_NOTES,
            max_artifacts: DEFAULT_CONTEXT_MAX_ARTIFACTS,
            max_turns: DEFAULT_CONTEXT_MAX_TURNS,
            max_summaries: DEFAULT_CONTEXT_MAX_SUMMARIES,
        }
    }
}

/// Configuration for webhook signature verification.
#[derive(Debug, Clone)]
pub struct WebhookConfig {
    /// Maximum age tolerance for webhook signatures in seconds.
    pub signature_tolerance_secs: i64,
}

impl Default for WebhookConfig {
    fn default() -> (c: Self)
        ensures
            c.signature_tolerance_secs == DEFAULT_WEBHOOK_SIGNATURE_TOLERANCE_SECS,
    {
        WebhookConfig { signature_tolerance_secs: DEFAULT_WEBHOOK_SIGNATURE_TOLERANCE_SECS }
    }
}

/// Configuration for idempotency middleware.
#[derive(Debug, Clone)]
pub struct IdempotencySettings {
    /// Time-to-live for idempotency keys
    pub ttl: Duration,
    /// Maximum body size to consider for hashing (in bytes)
    pub max_body_size: usize,
    /// Whether to require idempotency keys on mutating requests
    pub require_key: bool,
}

impl Default for IdempotencySettings {
    fn default() -> (c: Self)
        ensures
            c.ttl.spec_secs() == DEFAULT_IDEMPOTENCY_TTL_SECS,
            c.max_body_size == DEFAULT_IDEMPOTENCY_MAX_BODY_SIZE,
            !c.require_key,
    {
        IdempotencySettings {
            ttl: Duration::from_secs(DEFAULT_IDEMPOTENCY_TTL_SECS),
            max_body_size: DEFAULT_IDEMPOTENCY_MAX_BODY_SIZE,
            require_key: false,
        }
    }
}

impl IdempotencySettings {
    /// Convert to middleware-level `IdempotencyConfig`, field for field.
    pub fn to_middleware_config(&self) -> (c: IdempotencyConfig)
        ensures
            c.ttl == self.ttl,
            c.max_body_size == self.max_body_size,
            c.require_key == self.require_key,
    {
        IdempotencyConfig { ttl: self.ttl, max_body_size: self.max_body_size, require_key: self.require_key }
    }
}

} // verus!
