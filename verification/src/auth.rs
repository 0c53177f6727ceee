//! Authentication and tenant isolation: clocks, credentials, JWT claims and
//! the decisions taken on them.
//!
//! Signing and decoding tokens is left to the caller (it needs `serde` on
//! `Claims`); everything decided about a decoded token is here.

use vstd::prelude::*;
use vstd::utf8::{encode_utf8, decode_utf8, is_char_boundary};
use vstd::string::StringSliceAdditionalSpecFns;
use crate::ident::{EntityId, current_time_secs, uuid_text, uuid_to_string, uuid_parse, parse_uuid};
use crate::text::{has_text, contains_text, str_eq, owned, push_str, is_blank, blank, lowercase, to_lowercase,
    decimal_text, u64_to_string, has_prefix, starts_with, suffix_from};
use crate::error::{ApiError, ApiResult, ErrorCode, plain_error, default_message_of};

verus! {

// ----------------------------------------------------------------------------
// Clocks
// ----------------------------------------------------------------------------

/// Clock abstraction for JWT time validation.
pub trait JwtClock: Send + Sync {
    /// The one time this clock ever reads, where it is fixed.
    spec fn fixed_reading(&self) -> Option<i64>;

    /// Current time as Unix epoch seconds (negative before 1970).
    fn now_epoch_secs(&self) -> (now: i64)
        ensures
            self.fixed_reading() matches Some(t) ==> now == t,
    ;
}

/// Production clock using system time.
#[derive(Debug, Clone, Copy, Default)]
pub struct SystemClock;

impl JwtClock for SystemClock {
    open spec fn fixed_reading(&self) -> Option<i64> {
        None
    }

    fn now_epoch_secs(&self) -> (now: i64) {
        current_time_secs()
    }
}

/// Fixed clock for deterministic tests: always returns the same timestamp.
#[derive(Debug, Clone, Copy)]
pub struct FixedClock(pub i64);

impl JwtClock for FixedClock {
    open spec fn fixed_reading(&self) -> Option<i64> {
        Some(self.0)
    }

    fn now_epoch_secs(&self) -> (now: i64) {
        self.0
    }
}


// ----------------------------------------------------------------------------
// Providers and methods
// ----------------------------------------------------------------------------

/// Authentication provider selection.
#[derive(Debug, Clone, Copy, PartialEq, Eq, Structural)]
pub enum AuthProvider {
    /// Standard JWT authentication (default)
    Jwt,
    /// WorkOS SSO authentication
    WorkOs,
}

impl Default for AuthProvider {
    fn default() -> (p: Self)
        ensures
            p == AuthProvider::Jwt,
    {
        AuthProvider::Jwt
    }
}

/// The provider a configuration text names: `workos` in any letter case
/// names WorkOS, every other text names JWT.
pub open spec fn provider_named(text: Seq<char>) -> AuthProvider {
    if lowercase(text) == "workos"@ {
        AuthProvider::WorkOs
    } else {
        AuthProvider::Jwt
    }
}

impl AuthProvider {
    /// Parse an auth provider from a string (case-insensitive); never fails.
    pub fn parse(s: &str) -> (p: AuthProvider)
        ensures
            p == provider_named(s@),
    {
        let lower = to_lowercase(s);
        if str_eq(lower.as_str(), "workos") {
            AuthProvider::WorkOs
        } else {
            AuthProvider::Jwt
        }
    }
}

impl std::str::FromStr for AuthProvider {
    type Err = std::convert::Infallible;

    fn from_str(s: &str) -> (r: Result<Self, Self::Err>)
        ensures
            r == Ok::<AuthProvider, std::convert::Infallible>(provider_named(s@)),
    {
        Ok(AuthProvider::parse(s))
    }
}

/// The message of the error for a WorkOS provider in a build without the
/// WorkOS client.
pub open spec fn workos_unavailable_message() -> Seq<char> {
    "WorkOS authentication provider selected but 'workos' feature is not enabled. Rebuild with --features workos or set CALIBER_AUTH_PROVIDER=jwt"@
}

/// Whether requests can be authenticated under the configured provider: JWT
/// can; WorkOS, which this build has no client for, is an internal error
/// for every request.
pub fn check_auth_provider(provider: AuthProvider) -> (r: ApiResult<()>)
    ensures
        provider == AuthProvider::Jwt ==> r is Ok,
        provider == AuthProvider::WorkOs ==> fails_with(r, ErrorCode::InternalError, workos_unavailable_message()),
{
    match provider {
        AuthProvider::Jwt => Ok(()),
        AuthProvider::WorkOs => Err(ApiError::internal_error(
            "WorkOS authentication provider selected but 'workos' feature is not enabled. Rebuild with --features workos or set CALIBER_AUTH_PROVIDER=jwt",
        )),
    }
}

/// Authentication method used.
#[derive(Debug, Clone, Copy, PartialEq, Eq, Structural)]
pub enum AuthMethod {
    /// API key authentication
    ApiKey,
    /// JWT token authentication
    Jwt,
    /// WorkOS SSO authentication
    WorkOs,
}

// ----------------------------------------------------------------------------
// Claims
// ----------------------------------------------------------------------------

/// JWT claims: the standard claims plus the tenant and the roles.
#[derive(Debug, Clone, PartialEq)]
pub struct Claims {
    /// Subject (user ID)
    pub sub: String,
    /// Issued at (Unix timestamp)
    pub iat: i64,
    /// Expiration time (Unix timestamp)
    pub exp: i64,
    /// Tenant ID the user has access to, as the text of a UUID
    pub tenant_id: Option<String>,
    /// User roles/permissions
    pub roles: Vec<String>,
}

/// The text a claim holds for an optional tenant.
pub open spec fn tenant_claim(tenant_id: Option<EntityId>) -> Option<Seq<char>> {
    match tenant_id {
        Some(id) => Some(uuid_text(id)),
        None => None,
    }
}

/// The view of an optional string.
pub open spec fn opt_text(s: Option<String>) -> Option<Seq<char>> {
    match s {
        Some(t) => Some(t@),
        None => None,
    }
}

/// Claims issued at `now` that expire `expiration_secs` later (the sum
/// wrapping around as `i64` arithmetic does), with no roles.
pub open spec fn issued_claims(c: Claims, user_id: Seq<char>, tenant_id: Option<EntityId>,
    expiration_secs: i64, now: i64) -> bool
{
    &&& c.sub@ == user_id
    &&& c.iat == now
    &&& c.exp == now.wrapping_add(expiration_secs)
    &&& opt_text(c.tenant_id) == tenant_claim(tenant_id)
    &&& c.roles@.len() == 0
}

impl Claims {
    /// Claims for a user issued at the given time.
    pub fn issued_at(user_id: String, tenant_id: Option<EntityId>, expiration_secs: i64, now: i64) -> (c: Self)
        ensures
            issued_claims(c, user_id@, tenant_id, expiration_secs, now),
    {
        let tenant = match tenant_id {
            Some(id) => Some(uuid_to_string(id)),
            None => None,
        };
        Claims { sub: user_id, iat: now, exp: now.wrapping_add(expiration_secs), tenant_id: tenant, roles: Vec::new() }
    }

    /// Create new claims for a user, issued at the time the clock reads.
    pub fn new<C: JwtClock>(user_id: String, tenant_id: Option<EntityId>, expiration_secs: i64, clock: &C) -> (c: Self)
        ensures
            issued_claims(c, user_id@, tenant_id, expiration_secs, c.iat),
            clock.fixed_reading() matches Some(t) ==> issued_claims(c, user_id@, tenant_id, expiration_secs, t),
    {
        let now = clock.now_epoch_secs();
        Self::issued_at(user_id, tenant_id, expiration_secs, now)
    }

    /// Add a role to the claims.
    pub fn with_role(self, role: String) -> (c: Self)
        ensures
            c.roles@ == self.roles@.push(role),
            c.sub == self.sub,
            c.iat == self.iat,
            c.exp == self.exp,
            c.tenant_id == self.tenant_id,
    {
        let mut c = self;
        c.roles.push(role);
        c
    }

    /// Add several roles to the claims, in order.
    pub fn with_roles(self, roles: Vec<String>) -> (c: Self)
        ensures
            c.roles@ == self.roles@ + roles@,
            c.sub == self.sub,
            c.iat == self.iat,
            c.exp == self.exp,
            c.tenant_id == self.tenant_id,
    {
        let mut c = self;
        let mut more = roles;
        c.roles.append(&mut more);
        c
    }

    /// Whether the claims have expired at time `now`.
    pub fn is_expired_at(&self, now: i64) -> (b: bool)
        ensures
            b == (self.exp < now),
    {
        self.exp < now
    }

    /// Check if the token has expired according to a clock.
    pub fn is_expired<C: JwtClock>(&self, clock: &C) -> (b: bool)
        ensures
            clock.fixed_reading() matches Some(t) ==> b == (self.exp < t),
    {
        let now = clock.now_epoch_secs();
        self.is_expired_at(now)
    }

    /// The tenant the claims name, where their tenant text is a UUID.
    pub fn tenant_id(&self) -> (t: Option<EntityId>)
        ensures
            t == (match self.tenant_id {
                Some(s) => uuid_parse(s@),
                None => None,
            }),
    {
        match &self.tenant_id {
            Some(s) => parse_uuid(s.as_str()),
            None => None,
        }
    }
}


// ----------------------------------------------------------------------------
// Authentication context
// ----------------------------------------------------------------------------

/// Authentication context extracted from a request.
#[derive(Debug, Clone)]
pub struct AuthContext {
    /// User ID (from JWT sub claim or API key identifier)
    pub user_id: String,
    /// Tenant ID (from X-Tenant-ID header or JWT claim)
    pub tenant_id: EntityId,
    /// User roles/permissions
    pub roles: Vec<String>,
    /// Authentication method used
    pub auth_method: AuthMethod,
    /// User's email address
    pub email: Option<String>,
    /// User's first name
    pub first_name: Option<String>,
    /// User's last name
    pub last_name: Option<String>,
}

impl AuthContext {
    /// Create a new authentication context, without profile information.
    pub fn new(user_id: String, tenant_id: EntityId, roles: Vec<String>, auth_method: AuthMethod) -> (c: Self)
        ensures
            c.user_id == user_id,
            c.tenant_id == tenant_id,
            c.roles == roles,
            c.auth_method == auth_method,
            c.email is None,
            c.first_name is None,
            c.last_name is None,
    {
        AuthContext { user_id, tenant_id, roles, auth_method, email: None, first_name: None, last_name: None }
    }

    /// Create a new authentication context with user profile info.
    pub fn with_profile(
        user_id: String,
        tenant_id: EntityId,
        roles: Vec<String>,
        auth_method: AuthMethod,
        email: Option<String>,
        first_name: Option<String>,
        last_name: Option<String>,
    ) -> (c: Self)
        ensures
            c == (AuthContext { user_id, tenant_id, roles, auth_method, email, first_name, last_name }),
    {
        AuthContext { user_id, tenant_id, roles, auth_method, email, first_name, last_name }
    }

    /// Check if the user has a specific role.
    pub fn has_role(&self, role: &str) -> (b: bool)
        ensures
            b == has_text(self.roles@, role@),
    {
        contains_text(&self.roles, role)
    }

    /// Check if the user has any of the specified roles.
    pub fn has_any_role(&self, roles: &[&str]) -> (b: bool)
        ensures
            b == exists|i: int| 0 <= i < roles@.len() && has_text(self.roles@, #[trigger] roles@[i]@),
    {
        let mut i: usize = 0;
        while i < roles.len()
            invariant
                i <= roles@.len(),
                forall|j: int| 0 <= j < i ==> !has_text(self.roles@, #[trigger] roles@[j]@),
            decreases roles@.len() - i,
        {
            if self.has_role(roles[i]) {
                return true;
            }
            i = i + 1;
        }
        false
    }

    /// Check if the user has all of the specified roles.
    pub fn has_all_roles(&self, roles: &[&str]) -> (b: bool)
        ensures
            b == forall|i: int| 0 <= i < roles@.len() ==> has_text(self.roles@, #[trigger] roles@[i]@),
    {
        let mut i: usize = 0;
        while i < roles.len()
            invariant
                i <= roles@.len(),
                forall|j: int| 0 <= j < i ==> has_text(self.roles@, #[trigger] roles@[j]@),
            decreases roles@.len() - i,
        {
            if !self.has_role(roles[i]) {
                return false;
            }
            i = i + 1;
        }
        true
    }
}

// ----------------------------------------------------------------------------
// Secrets and configuration
// ----------------------------------------------------------------------------

/// The secret that a configuration falls back to; it must never reach production.
pub const INSECURE_DEFAULT_SECRET: &'static str = "INSECURE_DEFAULT_SECRET_CHANGE_IN_PRODUCTION";

/// Error in the configuration.
#[derive(Debug, Clone, PartialEq)]
pub enum ConfigError {
    /// A required setting is missing or empty.
    MissingRequired { field: String },
}

/// A JWT signing secret, never empty.
#[derive(Clone)]
pub struct JwtSecret(String);

impl View for JwtSecret {
    type V = Seq<char>;

    closed spec fn view(&self) -> Seq<char> {
        self.0@
    }
}

impl JwtSecret {
    /// Create a new JWT secret; an empty secret is refused.
    pub fn new(secret: String) -> (r: Result<Self, ConfigError>)
        ensures
            secret@.len() == 0 <==> r is Err,
            r matches Ok(s) ==> s@ == secret@,
            r matches Err(ConfigError::MissingRequired { field }) ==> field@ == "jwt_secret"@,
    {
        if secret.as_str().is_empty() {
            return Err(ConfigError::MissingRequired { field: owned("jwt_secret") });
        }
        Ok(JwtSecret(secret))
    }

    /// Expose the secret value (only for cryptographic operations).
    pub fn expose(&self) -> (s: &str)
        ensures
            s@ == self@,
    {
        self.0.as_str()
    }

    /// The length of the secret in bytes (of its UTF-8 encoding).
    pub fn len(&self) -> (n: usize)
        ensures
            n == encode_utf8(self@).len(),
    {
        self.0.as_str().as_bytes().len()
    }

    /// Whether the secret is empty.
    pub fn is_empty(&self) -> (b: bool)
        ensures
            b == (self@.len() == 0),
    {
        self.0.as_str().is_empty()
    }

    /// The text the secret is shown as in logs: `JwtSecret([REDACTED, n chars])`
    /// with its length in bytes, never its value.
    pub fn redacted_text(&self) -> (s: String)
        ensures
            s@ == "JwtSecret([REDACTED, "@ + decimal_text(encode_utf8(self@).len()) + " chars])"@,
    {
        let mut s = owned("JwtSecret([REDACTED, ");
        let digits = u64_to_string(self.len() as u64);
        push_str(&mut s, digits.as_str());
        push_str(&mut s, " chars])");
        s
    }

    /// Whether the secret is the insecure default.
    pub fn is_insecure_default(&self) -> (b: bool)
        ensures
            b == (self@ == INSECURE_DEFAULT_SECRET@),
    {
        str_eq(self.0.as_str(), INSECURE_DEFAULT_SECRET)
    }
}

/// The secret a configuration keeps for a configured text: the text itself,
/// or the insecure default where the text is blank.
pub open spec fn normalized_secret(secret: Seq<char>) -> Seq<char> {
    if is_blank(secret) { INSECURE_DEFAULT_SECRET@ } else { secret }
}

/// Build the JWT secret for a configured text, falling back to the insecure
/// default where the text is blank.
pub fn build_jwt_secret(secret_str: String) -> (s: JwtSecret)
    ensures
        s@ == normalized_secret(secret_str@),
{
    let normalized = if blank(secret_str.as_str()) { owned(INSECURE_DEFAULT_SECRET) } else { secret_str };
    proof {
        reveal_strlit("INSECURE_DEFAULT_SECRET_CHANGE_IN_PRODUCTION");
        if !is_blank(secret_str@) {
            assert(secret_str@.len() > 0);
        }
    }
    match JwtSecret::new(normalized) {
        Ok(secret) => secret,
        Err(_) => JwtSecret(owned(INSECURE_DEFAULT_SECRET)),
    }
}

/// The JWT algorithm of `jsonwebtoken`, carried through the configuration.
#[verifier::external_type_specification]
#[verifier::external_body]
pub struct ExAlgorithm(jsonwebtoken::Algorithm);

/// Calls `Default::default` of `jsonwebtoken::Algorithm`, which is HS256.
/// Nothing is claimed: the type is opaque here.
#[verifier::external_body]
fn default_algorithm() -> (a: jsonwebtoken::Algorithm) {
    jsonwebtoken::Algorithm::default()
}

/// Authentication configuration.
pub struct AuthConfig<C: JwtClock> {
    /// Valid API keys; a key occurs at most once.
    pub api_keys: Vec<String>,
    /// JWT secret key for signing and verification
    pub jwt_secret: JwtSecret,
    /// JWT algorithm (default: HS256)
    pub jwt_algorithm: jsonwebtoken::Algorithm,
    /// JWT token expiration in seconds (default: 1 hour)
    pub jwt_expiration_secs: i64,
    /// JWT clock skew tolerance in seconds (default: 60)
    pub jwt_clock_skew_secs: i64,
    /// Whether to require the tenant header
    pub require_tenant_header: bool,
    /// WorkOS client ID
    pub workos_client_id: Option<String>,
    /// WorkOS API key
    pub workos_api_key: Option<String>,
    /// WorkOS redirect URI for the SSO callback
    pub workos_redirect_uri: Option<String>,
    /// Authentication provider to use
    pub auth_provider: AuthProvider,
    /// Clock for JWT time validation
    pub clock: C,
}

/// The set of API keys a configuration accepts.
pub open spec fn key_set(keys: Seq<String>) -> Set<Seq<char>> {
    Set::new(|k: Seq<char>| has_text(keys, k))
}

/// Whether a deployment environment's name makes it production.
pub open spec fn production_env(environment: Option<Seq<char>>) -> bool {
    let lower = lowercase(environment.unwrap_or("development"@));
    lower == "production"@ || lower == "prod"@
}

/// The `CALIBER_ENVIRONMENT` value an error message quotes.
pub open spec fn env_shown(environment: Option<Seq<char>>) -> Seq<char> {
    lowercase(environment.unwrap_or("development"@))
}

impl<C: JwtClock> AuthConfig<C> {
    /// The default configuration with the given secret text and clock: no API
    /// keys, HS256, one hour of validity, sixty seconds of clock skew, the
    /// tenant header required, no WorkOS settings, the JWT provider.
    pub fn with_secret(secret_str: String, clock: C) -> (c: Self)
        ensures
            c.api_keys@.len() == 0,
            c.jwt_secret@ == normalized_secret(secret_str@),
            c.jwt_expiration_secs == 3600,
            c.jwt_clock_skew_secs == 60,
            c.require_tenant_header,
            c.workos_client_id is None,
            c.workos_api_key is None,
            c.workos_redirect_uri is None,
            c.auth_provider == AuthProvider::Jwt,
            c.clock == clock,
    {
        AuthConfig {
            api_keys: Vec::new(),
            jwt_secret: build_jwt_secret(secret_str),
            jwt_algorithm: default_algorithm(),
            jwt_expiration_secs: 3600,
            jwt_clock_skew_secs: 60,
            require_tenant_header: true,
            workos_client_id: None,
            workos_api_key: None,
            workos_redirect_uri: None,
            auth_provider: AuthProvider::Jwt,
            clock,
        }
    }

    /// Add an API key to the valid set.
    pub fn add_api_key(&mut self, key: String)
        ensures
            key_set(final(self).api_keys@) == key_set(old(self).api_keys@).insert(key@),
            final(self).jwt_secret@ == old(self).jwt_secret@,
            final(self).jwt_clock_skew_secs == old(self).jwt_clock_skew_secs,
            final(self).jwt_expiration_secs == old(self).jwt_expiration_secs,
            final(self).require_tenant_header == old(self).require_tenant_header,
            final(self).auth_provider == old(self).auth_provider,
            final(self).workos_client_id == old(self).workos_client_id,
            final(self).workos_api_key == old(self).workos_api_key,
            final(self).workos_redirect_uri == old(self).workos_redirect_uri,
            final(self).clock == old(self).clock,
    {
        if !contains_text(&self.api_keys, key.as_str()) {
            let ghost k = key@;
            self.api_keys.push(key);
            proof {
                assert(self.api_keys@[self.api_keys@.len() - 1]@ == k);
                assert forall|t: Seq<char>| has_text(self.api_keys@, t) <==> (has_text(old(self).api_keys@, t) || t == k) by {
                    if has_text(old(self).api_keys@, t) {
                        let i = choose|i: int| 0 <= i < old(self).api_keys@.len() && #[trigger] old(self).api_keys@[i]@ == t;
                        assert(self.api_keys@[i]@ == t);
                    }
                    if has_text(self.api_keys@, t) && t != k {
                        let i = choose|i: int| 0 <= i < self.api_keys@.len() && #[trigger] self.api_keys@[i]@ == t;
                        assert(old(self).api_keys@[i]@ == t);
                    }
                }
                assert(key_set(self.api_keys@) =~= key_set(old(self).api_keys@).insert(k));
            }
        } else {
            assert(key_set(self.api_keys@) =~= key_set(old(self).api_keys@).insert(key@));
        }
    }

    /// Check if an API key is valid.
    pub fn is_valid_api_key(&self, key: &str) -> (b: bool)
        ensures
            b == key_set(self.api_keys@).contains(key@),
    {
        contains_text(&self.api_keys, key)
    }

    /// Validate the configuration for the named deployment environment
    /// (`development` where none is named): in production the insecure
    /// default secret and secrets shorter than 32 bytes are refused.
    pub fn validate_for_production(&self, environment: Option<&str>) -> (r: ApiResult<()>)
        ensures
            r is Err <==> production_env(opt_str(environment))
                && (self.jwt_secret@ == INSECURE_DEFAULT_SECRET@ || encode_utf8(self.jwt_secret@).len() < 32),
            r matches Err(e) ==> e.code == ErrorCode::InvalidInput && e.details is None,
            r matches Err(e) ==> (self.jwt_secret@ == INSECURE_DEFAULT_SECRET@ ==> e.message@ ==
                "Cannot start server in production with insecure JWT secret. Set CALIBER_JWT_SECRET to a secure value. CALIBER_ENVIRONMENT="@
                + env_shown(opt_str(environment))),
            r matches Err(e) ==> (self.jwt_secret@ != INSECURE_DEFAULT_SECRET@ ==> e.message@ ==
                "JWT secret is too short for production use ("@ + decimal_text(encode_utf8(self.jwt_secret@).len())
                + " chars). It must be at least 32 characters long."@),
    {
        let shown = match environment {
            Some(e) => to_lowercase(e),
            None => to_lowercase("development"),
        };
        let is_production = str_eq(shown.as_str(), "production") || str_eq(shown.as_str(), "prod");
        if self.jwt_secret.is_insecure_default() && is_production {
            let mut m = owned("Cannot start server in production with insecure JWT secret. Set CALIBER_JWT_SECRET to a secure value. CALIBER_ENVIRONMENT=");
            push_str(&mut m, shown.as_str());
            return Err(ApiError::invalid_input(m.as_str()));
        }
        let n = self.jwt_secret.len();
        if n < 32 && is_production {
            let mut m = owned("JWT secret is too short for production use (");
            let digits = u64_to_string(n as u64);
            push_str(&mut m, digits.as_str());
            push_str(&mut m, " chars). It must be at least 32 characters long.");
            return Err(ApiError::invalid_input(m.as_str()));
        }
        Ok(())
    }
}

/// The view of an optional text.
pub open spec fn opt_str(s: Option<&str>) -> Option<Seq<char>> {
    match s {
        Some(t) => Some(t@),
        None => None,
    }
}


// ----------------------------------------------------------------------------
// Authentication decisions
// ----------------------------------------------------------------------------

/// The result is an error with this code and message and no details.
pub open spec fn fails_with<T>(r: ApiResult<T>, code: ErrorCode, message: Seq<char>) -> bool {
    r matches Err(e) && plain_error(e, code, message)
}

/// Validate an API key against the configuration.
pub fn validate_api_key<C: JwtClock>(config: &AuthConfig<C>, api_key: &str) -> (r: ApiResult<()>)
    ensures
        r is Ok <==> key_set(config.api_keys@).contains(api_key@),
        r is Err ==> fails_with(r, ErrorCode::Unauthorized, "Invalid API key"@),
{
    if config.is_valid_api_key(api_key) {
        Ok(())
    } else {
        Err(ApiError::unauthorized("Invalid API key"))
    }
}

/// Validate the times of a token's claims at time `now`, tolerating
/// `leeway_secs` of clock skew both ways (computed without overflow).
pub fn validate_claim_times(now: i64, exp: i64, nbf: Option<i64>, leeway_secs: i64) -> (r: ApiResult<()>)
    ensures
        (nbf matches Some(n) && now + leeway_secs < n) ==> fails_with(r, ErrorCode::Unauthorized, "Token not yet valid (nbf)"@),
        !(nbf matches Some(n) && now + leeway_secs < n) && exp < now - leeway_secs
            ==> fails_with(r, ErrorCode::TokenExpired, default_message_of(ErrorCode::TokenExpired)),
        r is Ok <==> !(nbf matches Some(n) && now + leeway_secs < n) && !(exp < now - leeway_secs),
{
    let now_wide = now as i128;
    let leeway_wide = leeway_secs as i128;
    if let Some(n) = nbf {
        if now_wide + leeway_wide < n as i128 {
            return Err(ApiError::unauthorized("Token not yet valid (nbf)"));
        }
    }
    if (exp as i128) < now_wide - leeway_wide {
        return Err(ApiError::token_expired());
    }
    Ok(())
}

/// Why the token decoder refused a token.
#[derive(Debug, Clone, PartialEq)]
pub enum TokenRejection {
    /// The token is malformed.
    InvalidToken,
    /// The signature does not match.
    InvalidSignature,
    /// Any other failure, with the decoder's description of it.
    Other { reason: String },
}

/// What validating a decoded token at time `now` gives: the decoder's
/// refusal, an internal error for a clock before the epoch, an expiry
/// error, or the claims themselves.
pub open spec fn token_outcome(r: ApiResult<Claims>, decoded: Result<Claims, TokenRejection>, now: i64, leeway_secs: i64) -> bool {
    match decoded {
        Err(TokenRejection::InvalidToken) => fails_with(r, ErrorCode::InvalidToken, "Token is invalid"@),
        Err(TokenRejection::InvalidSignature) => fails_with(r, ErrorCode::InvalidToken, "Token signature is invalid"@),
        Err(TokenRejection::Other { reason }) => fails_with(r, ErrorCode::InvalidToken, "Token validation failed: "@ + reason@),
        Ok(c) => if now < 0 {
            fails_with(r, ErrorCode::InternalError, "Server time configuration error - please contact support"@)
        } else if c.exp < now - leeway_secs {
            fails_with(r, ErrorCode::TokenExpired, default_message_of(ErrorCode::TokenExpired))
        } else {
            r == Ok::<Claims, ApiError>(c)
        },
    }
}

/// Validate a decoded token at time `now`: the decoder's refusal becomes an
/// invalid-token error; a clock before the epoch is an internal error; then
/// the expiry is checked with the given leeway.
pub fn check_decoded_token(decoded: Result<Claims, TokenRejection>, now: i64, leeway_secs: i64) -> (r: ApiResult<Claims>)
    ensures
        token_outcome(r, decoded, now, leeway_secs),
{
    let claims = match decoded {
        Ok(c) => c,
        Err(TokenRejection::InvalidToken) => return Err(ApiError::invalid_token("Token is invalid")),
        Err(TokenRejection::InvalidSignature) => return Err(ApiError::invalid_token("Token signature is invalid")),
        Err(TokenRejection::Other { reason }) => {
            let mut m = owned("Token validation failed: ");
            push_str(&mut m, reason.as_str());
            return Err(ApiError::invalid_token(m.as_str()));
        },
    };
    if now < 0 {
        return Err(ApiError::internal_error("Server time configuration error - please contact support"));
    }
    match validate_claim_times(now, claims.exp, None, leeway_secs) {
        Ok(()) => Ok(claims),
        Err(e) => Err(e),
    }
}

/// Validate a decoded token at the time the configuration's clock reads,
/// with the configuration's clock skew.
pub fn validate_decoded_token<C: JwtClock>(config: &AuthConfig<C>, decoded: Result<Claims, TokenRejection>) -> (r: ApiResult<Claims>)
    ensures
        config.clock.fixed_reading() matches Some(t) ==> token_outcome(r, decoded, t, config.jwt_clock_skew_secs),
        exists|now: i64| token_outcome(r, decoded, now, config.jwt_clock_skew_secs),
{
    let now = config.clock.now_epoch_secs();
    check_decoded_token(decoded, now, config.jwt_clock_skew_secs)
}

/// Parse the X-Tenant-ID header as a UUID.
pub fn extract_tenant_id(header_value: &str) -> (r: ApiResult<EntityId>)
    ensures
        uuid_parse(header_value@) matches Some(id) ==> r == Ok::<EntityId, ApiError>(id),
        uuid_parse(header_value@) is None ==> fails_with(r, ErrorCode::InvalidFormat,
            "Field 'X-Tenant-ID' has invalid format, expected valid UUID"@),
{
    match parse_uuid(header_value) {
        Some(id) => Ok(id),
        None => {
            let e = ApiError::invalid_format("X-Tenant-ID", "valid UUID");
            proof {
                reveal_strlit("X-Tenant-ID");
                reveal_strlit("valid UUID");
                reveal_strlit("Field 'X-Tenant-ID' has invalid format, expected valid UUID");
                reveal_strlit("Field '");
                reveal_strlit("' has invalid format, expected ");
                assert(e.message@ =~= "Field 'X-Tenant-ID' has invalid format, expected valid UUID"@);
            }
            Err(e)
        },
    }
}

/// The tenant a request acts for: the header's where it is given (an
/// unparseable header fails), else the claimed one, else the nil tenant
/// where no header is required; `None` where the tenant is missing or bad.
pub open spec fn chosen_tenant(header: Option<Seq<char>>, claimed: Option<EntityId>, require: bool) -> Option<EntityId> {
    match header {
        Some(h) => uuid_parse(h),
        None => match claimed {
            Some(id) => Some(id),
            None => if require { None } else { Some(0) },
        },
    }
}

/// Choose the tenant of a request; `missing` names what was looked for.
fn resolve_tenant(header: Option<&str>, claimed: Option<EntityId>, require: bool, missing: &str) -> (r: ApiResult<EntityId>)
    ensures
        chosen_tenant(opt_str(header), claimed, require) matches Some(id) ==> r == Ok::<EntityId, ApiError>(id),
        (header matches Some(h) && uuid_parse(h@) is None) ==> fails_with(r, ErrorCode::InvalidFormat,
            "Field 'X-Tenant-ID' has invalid format, expected valid UUID"@),
        (header is None && claimed is None && require) ==> fails_with(r, ErrorCode::MissingField,
            "Required field '"@ + missing@ + "' is missing"@),
{
    match header {
        Some(h) => extract_tenant_id(h),
        None => match claimed {
            Some(id) => Ok(id),
            None => if require { Err(ApiError::missing_field(missing)) } else { Ok(0) },
        },
    }
}

/// How many bytes of an API key go into the user ID: the first eight, or
/// all of a shorter key.
pub open spec fn key_prefix_len(key: &str) -> int {
    let n = key.spec_bytes().len() as int;
    if n < 8 { n } else { 8 }
}

/// The user ID an API key authenticates as: `api_key_` and the key's first
/// eight bytes.
pub open spec fn api_key_user(key: &str) -> Seq<char> {
    "api_key_"@ + decode_utf8(key.spec_bytes().subrange(0, key_prefix_len(key)))
}

/// The roles an API key grants.
pub open spec fn api_user_roles(roles: Seq<String>) -> bool {
    roles.len() == 1 && roles[0]@ == "api_user"@
}

/// Authenticate a request by API key: the key must be valid and the tenant
/// header must name a tenant (or be absent where it is not required).
pub fn authenticate_api_key<C: JwtClock>(config: &AuthConfig<C>, api_key: &str, tenant_id_header: Option<&str>) -> (r: ApiResult<AuthContext>)
    requires
        key_set(config.api_keys@).contains(api_key@)
            && chosen_tenant(opt_str(tenant_id_header), None, config.require_tenant_header) is Some
            ==> is_char_boundary(api_key.spec_bytes(), key_prefix_len(api_key)),
    ensures
        !key_set(config.api_keys@).contains(api_key@) ==> fails_with(r, ErrorCode::Unauthorized, "Invalid API key"@),
        key_set(config.api_keys@).contains(api_key@) && (tenant_id_header matches Some(h) && uuid_parse(h@) is None)
            ==> fails_with(r, ErrorCode::InvalidFormat,
                "Field 'X-Tenant-ID' has invalid format, expected valid UUID"@),
        key_set(config.api_keys@).contains(api_key@) && tenant_id_header is None && config.require_tenant_header
            ==> fails_with(r, ErrorCode::MissingField, "Required field 'X-Tenant-ID' is missing"@),
        r is Ok <==> key_set(config.api_keys@).contains(api_key@)
            && chosen_tenant(opt_str(tenant_id_header), None, config.require_tenant_header) is Some,
        r matches Ok(c) ==> {
            &&& c.user_id@ == api_key_user(api_key)
            &&& Some(c.tenant_id) == chosen_tenant(opt_str(tenant_id_header), None, config.require_tenant_header)
            &&& api_user_roles(c.roles@)
            &&& c.auth_method == AuthMethod::ApiKey
            &&& c.email is None && c.first_name is None && c.last_name is None
        },
{
    match validate_api_key(config, api_key) {
        Ok(()) => {},
        Err(e) => return Err(e),
    }
    let tenant_id = match resolve_tenant(tenant_id_header, None, config.require_tenant_header, "X-Tenant-ID") {
        Ok(id) => id,
        Err(e) => {
            proof {
                reveal_strlit("X-Tenant-ID");
                reveal_strlit("Required field 'X-Tenant-ID' is missing");
                assert("Required field '"@ + "X-Tenant-ID"@ + "' is missing"@ =~= "Required field 'X-Tenant-ID' is missing"@) by {
                    reveal_strlit("Required field '");
                    reveal_strlit("' is missing");
                }
            }
            return Err(e);
        },
    };
    let n = api_key.as_bytes().len();
    let m: usize = if n < 8 { n } else { 8 };
    let (head, _) = api_key.split_at(m);
    proof {
        broadcast use vstd::utf8::encode_utf8_decode_utf8;
        assert(head.spec_bytes() == encode_utf8(head@));
        assert(decode_utf8(encode_utf8(head@)) == head@);
    }
    let mut user_id = owned("api_key_");
    push_str(&mut user_id, head);
    let mut roles: Vec<String> = Vec::new();
    roles.push(owned("api_user"));
    Ok(AuthContext::new(user_id, tenant_id, roles, AuthMethod::ApiKey))
}

/// Authenticate a request by the claims of a validated JWT: the tenant comes
/// from the header, else from the claims, else (where not required) it is
/// the nil tenant.
pub fn authenticate_claims<C: JwtClock>(config: &AuthConfig<C>, claims: Claims, tenant_id_header: Option<&str>) -> (r: ApiResult<AuthContext>)
    ensures
        ({
            let claimed = match claims.tenant_id { Some(s) => uuid_parse(s@), None => None };
            &&& (tenant_id_header matches Some(h) && uuid_parse(h@) is None) ==> fails_with(r, ErrorCode::InvalidFormat, "Field 'X-Tenant-ID' has invalid format, expected valid UUID"@)
            &&& (tenant_id_header is None && claimed is None && config.require_tenant_header) ==> fails_with(r, ErrorCode::MissingField, "Required field 'X-Tenant-ID or JWT tenant_id claim' is missing"@)
            &&& r is Ok <==> chosen_tenant(opt_str(tenant_id_header), claimed, config.require_tenant_header) is Some
            &&& r matches Ok(c) ==> {
                &&& c.user_id == claims.sub
                &&& Some(c.tenant_id) == chosen_tenant(opt_str(tenant_id_header), claimed, config.require_tenant_header)
                &&& c.roles == claims.roles
                &&& c.auth_method == AuthMethod::Jwt
                &&& c.email is None && c.first_name is None && c.last_name is None
            }
        }),
{
    let claimed = claims.tenant_id();
    let tenant_id = match resolve_tenant(tenant_id_header, claimed, config.require_tenant_header, "X-Tenant-ID or JWT tenant_id claim") {
        Ok(id) => id,
        Err(e) => {
            proof {
                assert("Required field '"@ + "X-Tenant-ID or JWT tenant_id claim"@ + "' is missing"@
                    =~= "Required field 'X-Tenant-ID or JWT tenant_id claim' is missing"@) by {
                    reveal_strlit("X-Tenant-ID or JWT tenant_id claim");
                    reveal_strlit("Required field 'X-Tenant-ID or JWT tenant_id claim' is missing");
                    reveal_strlit("Required field '");
                    reveal_strlit("' is missing");
                }
            }
            return Err(e);
        },
    };
    Ok(AuthContext::new(claims.sub, tenant_id, claims.roles, AuthMethod::Jwt))
}

/// The credentials a request presents.
#[derive(Debug, Clone, PartialEq)]
pub enum Credentials {
    /// An API key from the X-API-Key header.
    ApiKey(String),
    /// A JWT from an `Authorization: Bearer` header.
    BearerToken(String),
}

/// Choose the credentials of a request: the API key header wins; else the
/// Authorization header must use the Bearer scheme; else nothing was given.
pub fn select_credentials(api_key_header: Option<&str>, auth_header: Option<&str>) -> (r: ApiResult<Credentials>)
    ensures
        api_key_header matches Some(k) ==> (r matches Ok(Credentials::ApiKey(key)) && key@ == k@),
        (api_key_header is None && (auth_header matches Some(v) && has_prefix(v@, "Bearer "@)))
            ==> (r matches Ok(Credentials::BearerToken(t)) && t@ == auth_header.unwrap()@.skip(7)),
        (api_key_header is None && (auth_header matches Some(v) && !has_prefix(v@, "Bearer "@)))
            ==> fails_with(r, ErrorCode::InvalidToken, "Authorization header must use Bearer scheme"@),
        (api_key_header is None && auth_header is None) ==> fails_with(r, ErrorCode::Unauthorized,
            "Authentication required: provide X-API-Key or Authorization header"@),
{
    if let Some(k) = api_key_header {
        return Ok(Credentials::ApiKey(owned(k)));
    }
    match auth_header {
        Some(v) => {
            if starts_with(v, "Bearer ") {
                proof { reveal_strlit("Bearer "); }
                Ok(Credentials::BearerToken(suffix_from(v, 7)))
            } else {
                Err(ApiError::invalid_token("Authorization header must use Bearer scheme"))
            }
        },
        None => Err(ApiError::unauthorized("Authentication required: provide X-API-Key or Authorization header")),
    }
}

/// Check that the user acts for the requested tenant.
pub fn check_tenant_access(auth_context: &AuthContext, requested_tenant_id: EntityId) -> (r: ApiResult<()>)
    ensures
        r is Ok <==> auth_context.tenant_id == requested_tenant_id,
        r is Err ==> fails_with(r, ErrorCode::Forbidden, "Access denied to tenant "@ + uuid_text(requested_tenant_id)),
{
    if auth_context.tenant_id == requested_tenant_id {
        Ok(())
    } else {
        let mut m = owned("Access denied to tenant ");
        let id = uuid_to_string(requested_tenant_id);
        push_str(&mut m, id.as_str());
        Err(ApiError::forbidden(m.as_str()))
    }
}

/// Check that a resource belongs to the authenticated user's tenant; a
/// resource with no tenant (legacy data) is refused too.
pub fn validate_tenant_ownership(auth: &AuthContext, resource_tenant_id: Option<EntityId>) -> (r: ApiResult<()>)
    ensures
        r is Ok <==> resource_tenant_id == Some(auth.tenant_id),
        resource_tenant_id matches Some(t) ==> (t != auth.tenant_id ==> fails_with(r, ErrorCode::Forbidden,
            "Access denied: resource belongs to different tenant (expected "@ + uuid_text(auth.tenant_id)
            + ", got "@ + uuid_text(t) + ")"@)),
        resource_tenant_id is None ==> fails_with(r, ErrorCode::Forbidden,
            "Access denied: resource has no tenant association (legacy data)"@),
{
    match resource_tenant_id {
        Some(tenant_id) => {
            if tenant_id == auth.tenant_id {
                Ok(())
            } else {
                let mut m = owned("Access denied: resource belongs to different tenant (expected ");
                let expected = uuid_to_string(auth.tenant_id);
                push_str(&mut m, expected.as_str());
                push_str(&mut m, ", got ");
                let got = uuid_to_string(tenant_id);
                push_str(&mut m, got.as_str());
                push_str(&mut m, ")");
                Err(ApiError::forbidden(m.as_str()))
            }
        },
        None => Err(ApiError::forbidden("Access denied: resource has no tenant association (legacy data)")),
    }
}


/// Decide on a resource fetched for a user by its ID: not found where
/// nothing was fetched (`None`); otherwise it must belong to the user's
/// tenant (`Some` of the resource's tenant).
pub fn check_fetched_resource(entity_name: &str, id: EntityId, fetched_tenant: Option<EntityId>, auth: &AuthContext) -> (r: ApiResult<()>)
    ensures
        fetched_tenant is None ==> fails_with(r, ErrorCode::EntityNotFound,
            entity_name@ + " with id "@ + uuid_text(id) + " not found"@),
        fetched_tenant matches Some(t) ==> (r is Ok <==> t == auth.tenant_id),
        fetched_tenant matches Some(t) ==> (t != auth.tenant_id ==> fails_with(r, ErrorCode::Forbidden,
            "Access denied: resource belongs to different tenant (expected "@ + uuid_text(auth.tenant_id)
            + ", got "@ + uuid_text(t) + ")"@)),
{
    match fetched_tenant {
        None => {
            let text = uuid_to_string(id);
            Err(ApiError::entity_not_found(entity_name, text.as_str()))
        },
        Some(t) => validate_tenant_ownership(auth, Some(t)),
    }
}

/// Decide on a resource fetched by its ID without a check of its tenant:
/// the resource where one was fetched, else not found.
pub fn require_found<T>(entity_name: &str, id: EntityId, fetched: Option<T>) -> (r: ApiResult<T>)
    ensures
        fetched matches Some(v) ==> r == Ok::<T, ApiError>(v),
        fetched is None ==> fails_with(r, ErrorCode::EntityNotFound,
            entity_name@ + " with id "@ + uuid_text(id) + " not found"@),
{
    match fetched {
        Some(v) => Ok(v),
        None => {
            let text = uuid_to_string(id);
            Err(ApiError::entity_not_found(entity_name, text.as_str()))
        },
    }
}

/// A token issued at `t` for `e` seconds is accepted at every time from the
/// epoch up to its expiry plus the clock-skew leeway.
pub proof fn lemma_token_valid_until_expiry_plus_leeway(
    c: Claims,
    user_id: Seq<char>,
    tenant_id: Option<EntityId>,
    e: i64,
    t: i64,
    now: i64,
    leeway_secs: i64,
)
    requires
        issued_claims(c, user_id, tenant_id, e, t),
        i64::MIN <= t + e <= i64::MAX,
        0 <= now,
        now - leeway_secs <= t + e,
    ensures
        token_outcome(Ok(c), Ok(c), now, leeway_secs),
{
}

/// Once the time passes a token's expiry plus the leeway, validating it
/// fails as expired, whatever else holds.
pub proof fn lemma_token_expires_after_leeway(
    c: Claims,
    user_id: Seq<char>,
    tenant_id: Option<EntityId>,
    e: i64,
    t: i64,
    now: i64,
    leeway_secs: i64,
    r: ApiResult<Claims>,
)
    requires
        issued_claims(c, user_id, tenant_id, e, t),
        i64::MIN <= t + e <= i64::MAX,
        0 <= now,
        now - leeway_secs > t + e,
        token_outcome(r, Ok(c), now, leeway_secs),
    ensures
        fails_with(r, ErrorCode::TokenExpired, default_message_of(ErrorCode::TokenExpired)),
{
}


/// A key added to a configuration is accepted from then on, and the keys
/// accepted before stay accepted.
pub proof fn lemma_added_key_is_valid(before: Seq<String>, after: Seq<String>, key: Seq<char>, other: Seq<char>)
    requires
        key_set(after) == key_set(before).insert(key),
    ensures
        key_set(after).contains(key),
        key_set(before).contains(other) ==> key_set(after).contains(other),
{
}

} // verus!
