//! What the request guards decide: the HTTP status of an authentication
//! failure, and the quotas and answers of rate limiting.

use vstd::prelude::*;
use crate::config::ApiConfig;
use crate::error::{ApiError, ErrorCode, plain_error, status_of};
use crate::component::texts;
use crate::ident::{uuid_text, uuid_to_string, EntityId};
use crate::settings::{trim_text, trim_ws, trimmed_between};
use crate::text::{chars_of, decimal_text, owned, u64_to_string};

verus! {

/// The HTTP status an authentication failure is answered with.
pub open spec fn auth_failure_status(code: ErrorCode) -> u16 {
    match code {
        ErrorCode::Unauthorized | ErrorCode::InvalidToken | ErrorCode::TokenExpired => 401,
        ErrorCode::Forbidden => 403,
        ErrorCode::MissingField | ErrorCode::InvalidFormat | ErrorCode::ValidationFailed
            | ErrorCode::InvalidInput => 400,
        _ => 500,
    }
}

/// An authentication failure of the middleware.
#[derive(Debug, Clone)]
pub struct AuthMiddlewareError(pub ApiError);

impl AuthMiddlewareError {
    /// The HTTP status this failure is answered with.
    pub fn status(&self) -> (s: u16)
        ensures
            s == auth_failure_status(self.0.code),
    {
        match self.0.code {
            ErrorCode::Unauthorized | ErrorCode::InvalidToken | ErrorCode::TokenExpired => 401,
            ErrorCode::Forbidden => 403,
            ErrorCode::MissingField | ErrorCode::InvalidFormat | ErrorCode::ValidationFailed
                | ErrorCode::InvalidInput => 400,
            _ => 500,
        }
    }
}

/// An authentication failure is answered as its code is elsewhere: 401 for
/// missing, invalid or expired credentials, 403 when forbidden, 400 for a
/// missing field, a bad format, a failed validation or invalid input; any
/// other code that reaches the middleware is answered 500.
pub proof fn lemma_auth_failure_status(code: ErrorCode)
    ensures
        (code == ErrorCode::Unauthorized || code == ErrorCode::InvalidToken || code == ErrorCode::TokenExpired
            || code == ErrorCode::Forbidden || code == ErrorCode::MissingField
            || code == ErrorCode::InvalidFormat || code == ErrorCode::ValidationFailed
            || code == ErrorCode::InvalidInput) ==> auth_failure_status(code) == status_of(code),
        auth_failure_status(code) == 401 <==> (code == ErrorCode::Unauthorized
            || code == ErrorCode::InvalidToken || code == ErrorCode::TokenExpired),
        auth_failure_status(code) == 403 <==> code == ErrorCode::Forbidden,
        auth_failure_status(code) == 400 <==> (code == ErrorCode::MissingField
            || code == ErrorCode::InvalidFormat || code == ErrorCode::ValidationFailed
            || code == ErrorCode::InvalidInput),
        auth_failure_status(code) == 500 <==> !(code == ErrorCode::Unauthorized
            || code == ErrorCode::InvalidToken || code == ErrorCode::TokenExpired
            || code == ErrorCode::Forbidden || code == ErrorCode::MissingField
            || code == ErrorCode::InvalidFormat || code == ErrorCode::ValidationFailed
            || code == ErrorCode::InvalidInput),
{
}

/// Whom a request is rate-limited as: an unauthenticated request by the
/// text of its client address, an authenticated one by its tenant.
#[derive(Debug, Clone, PartialEq, Eq, Hash)]
pub enum RateLimitKey {
    Ip(String),
    Tenant(String),
}

/// Requests per minute a kind of client may make under a configuration.
pub open spec fn quota_per_minute(config: ApiConfig, key: RateLimitKey) -> u32 {
    match key {
        RateLimitKey::Ip(_) => config.rate_limit_unauthenticated,
        RateLimitKey::Tenant(_) => config.rate_limit_authenticated,
    }
}

/// The configured requests per minute for a kind of client.
pub fn requests_per_minute(config: &ApiConfig, key: &RateLimitKey) -> (n: u32)
    ensures
        n == quota_per_minute(*config, *key),
{
    match key {
        RateLimitKey::Ip(_) => config.rate_limit_unauthenticated,
        RateLimitKey::Tenant(_) => config.rate_limit_authenticated,
    }
}

/// The key a request is limited by: its tenant, written as UUID text, where
/// it is authenticated; else its client address.
pub fn rate_limit_key(tenant_id: Option<EntityId>, client_ip: &str) -> (k: RateLimitKey)
    ensures
        match tenant_id {
            Some(t) => k matches RateLimitKey::Tenant(s) && s@ == uuid_text(t),
            None => k matches RateLimitKey::Ip(s) && s@ == client_ip@,
        },
{
    match tenant_id {
        Some(t) => RateLimitKey::Tenant(uuid_to_string(t)),
        None => RateLimitKey::Ip(owned(client_ip)),
    }
}

/// The text before the first comma (all of it where there is none).
pub open spec fn first_field(s: Seq<char>) -> Seq<char>
    decreases s.len(),
{
    if s.len() == 0 {
        s
    } else if s[0] == ',' {
        Seq::empty()
    } else {
        seq![s[0]] + first_field(s.drop_first())
    }
}

/// The first field of a text is all of it before its first comma, or all
/// of it where it has none.
pub proof fn lemma_first_field(s: Seq<char>, k: int)
    requires
        0 <= k <= s.len(),
        forall|j: int| 0 <= j < k ==> s[j] != ',',
        k == s.len() || s[k] == ',',
    ensures
        first_field(s) == s.take(k),
    decreases s.len(),
{
    if s.len() > 0 && k > 0 {
        lemma_first_field(s.drop_first(), k - 1);
        assert(s.take(k) =~= seq![s[0]] + s.drop_first().take(k - 1));
    } else {
        assert(s.take(k) =~= Seq::<char>::empty());
    }
}

/// The addresses to try for the client of a request, in order: the first
/// entry of `X-Forwarded-For`, then `X-Real-IP`, each without surrounding
/// white space. The first that parses as an IP address is the client; where
/// none does, the address of the connection is.
pub fn client_ip_candidates(forwarded_for: Option<&str>, real_ip: Option<&str>) -> (r: Vec<String>)
    ensures
        texts(r@) == (match forwarded_for {
            Some(f) => seq![trim_ws(first_field(f@))],
            None => Seq::<Seq<char>>::empty(),
        }) + (match real_ip {
            Some(x) => seq![trim_ws(x@)],
            None => Seq::<Seq<char>>::empty(),
        }),
{
    let mut out: Vec<String> = Vec::new();
    if let Some(f) = forwarded_for {
        let v = chars_of(f);
        let mut k: usize = 0;
        while k < v.len() && v[k] != ','
            invariant
                k <= v@.len(),
                forall|j: int| 0 <= j < k ==> v@[j] != ',',
            decreases v.len() - k,
        {
            k = k + 1;
        }
        proof {
            lemma_first_field(v@, k as int);
            assert(v@.subrange(0, k as int) =~= v@.take(k as int));
        }
        out.push(trimmed_between(&v, 0, k));
    }
    let ghost first = out@;
    if let Some(x) = real_ip {
        out.push(trim_text(x));
    }
    assert(texts(out@) =~= texts(first) + (match real_ip {
        Some(x) => seq![trim_ws(x@)],
        None => Seq::<Seq<char>>::empty(),
    }));
    out
}

/// A quota as the limiter takes it: at least one.
pub fn effective_quota(n: u32) -> (q: u32)
    ensures
        q == if n == 0 { 1 } else { n },
        q >= 1,
{
    if n == 0 { 1 } else { n }
}

/// The seconds a refused client is told to wait: at least one.
pub fn retry_after_secs(wait_secs: u64) -> (s: u64)
    ensures
        s == if wait_secs < 1 { 1 } else { wait_secs },
        s >= 1,
{
    if wait_secs < 1 { 1 } else { wait_secs }
}

/// A refused request: how many seconds until the limit resets.
#[derive(Debug, Clone, Copy)]
pub struct RateLimitError {
    pub retry_after: u64,
}

impl RateLimitError {
    /// The error body a refused request gets.
    pub fn to_api_error(&self) -> (e: ApiError)
        ensures
            plain_error(e, ErrorCode::TooManyRequests,
                "Rate limit exceeded. Retry after "@ + decimal_text(self.retry_after as nat) + " seconds"@),
    {
        ApiError::too_many_requests(Some(self.retry_after))
    }

    /// The value of the `Retry-After` header.
    pub fn retry_after_header(&self) -> (s: String)
        ensures
            s@ == decimal_text(self.retry_after as nat),
    {
        u64_to_string(self.retry_after)
    }
}

} // verus!
