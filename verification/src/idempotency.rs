//! Idempotency keys for mutating requests: configuration and the rules that
//! decide how a request with a key is treated.
//!
//! A client sends an `Idempotency-Key` header with a mutating request; the
//! server fingerprints the request (method, path and body) so that a retry
//! with the same key and the same request gets the cached response, and a
//! reuse of the key for another request is refused.

use vstd::prelude::*;
use vstd::utf8::encode_utf8;
use vstd::string::StringSliceAdditionalSpecFns;
use sha2::Digest;
use crate::duration::Duration;
use crate::error::{ApiError, ErrorCode, plain_error, status_of};
use crate::ident::{EntityId, uuid_parse};
use crate::ident::parse_uuid;
use crate::stored::JsonValue;
use crate::text::{owned, push_str, chars_of, string_of, lowercase, to_lowercase, decimal_text, u64_to_string};

verus! {

/// Header name for the idempotency key.
pub const IDEMPOTENCY_KEY_HEADER: &'static str = "idempotency-key";

/// Maximum size of request body to hash (1MB).
pub const MAX_BODY_HASH_SIZE: usize = 1048576;

/// Default TTL for idempotency keys, in seconds (24 hours).
pub const DEFAULT_TTL_SECS: u64 = 86400;

/// The longest idempotency key accepted, in bytes.
pub const MAX_KEY_BYTES: usize = 256;

/// Configuration for idempotency middleware.
#[derive(Debug, Clone)]
pub struct IdempotencyConfig {
    /// Time-to-live for idempotency keys
    pub ttl: Duration,
    /// Maximum body size to consider for hashing
    pub max_body_size: usize,
    /// Whether to require idempotency keys on mutating requests
    pub require_key: bool,
}

impl Default for IdempotencyConfig {
    fn default() -> (c: Self)
        ensures
            c.ttl.spec_secs() == DEFAULT_TTL_SECS,
            c.max_body_size == MAX_BODY_HASH_SIZE,
            !c.require_key,
    {
        IdempotencyConfig { ttl: Duration::from_secs(DEFAULT_TTL_SECS), max_body_size: MAX_BODY_HASH_SIZE, require_key: false }
    }
}

impl IdempotencyConfig {
    /// The time-to-live as an SQL interval text, e.g. `86400 seconds`.
    pub fn ttl_interval(&self) -> (s: String)
        ensures
            s@ == decimal_text(self.ttl.spec_secs() as nat) + " seconds"@,
    {
        let mut s = u64_to_string(self.ttl.as_secs());
        push_str(&mut s, " seconds");
        s
    }
}

/// An HTTP request method.
#[derive(Debug, Clone, PartialEq, Eq)]
pub enum HttpMethod {
    Get,
    Head,
    Post,
    Put,
    Delete,
    Connect,
    Options,
    Trace,
    Patch,
    /// An extension method, by its name.
    Other(String),
}

/// The name of a method as it appears in a request line.
pub open spec fn method_text(m: HttpMethod) -> Seq<char> {
    match m {
        HttpMethod::Get => "GET"@,
        HttpMethod::Head => "HEAD"@,
        HttpMethod::Post => "POST"@,
        HttpMethod::Put => "PUT"@,
        HttpMethod::Delete => "DELETE"@,
        HttpMethod::Connect => "CONNECT"@,
        HttpMethod::Options => "OPTIONS"@,
        HttpMethod::Trace => "TRACE"@,
        HttpMethod::Patch => "PATCH"@,
        HttpMethod::Other(name) => name@,
    }
}

impl HttpMethod {
    /// The name of the method as it appears in a request line.
    pub fn as_str(&self) -> (s: &str)
        ensures
            s@ == method_text(*self),
    {
        match self {
            HttpMethod::Get => "GET",
            HttpMethod::Head => "HEAD",
            HttpMethod::Post => "POST",
            HttpMethod::Put => "PUT",
            HttpMethod::Delete => "DELETE",
            HttpMethod::Connect => "CONNECT",
            HttpMethod::Options => "OPTIONS",
            HttpMethod::Trace => "TRACE",
            HttpMethod::Patch => "PATCH",
            HttpMethod::Other(name) => name.as_str(),
        }
    }
}

/// The methods that change state: POST, PUT, PATCH and DELETE.
pub open spec fn mutating(m: HttpMethod) -> bool {
    m is Post || m is Put || m is Patch || m is Delete
}

/// Check if the HTTP method is a mutating operation.
pub fn is_mutating_method(method: &HttpMethod) -> (b: bool)
    ensures
        b == mutating(*method),
{
    match method {
        HttpMethod::Post | HttpMethod::Put | HttpMethod::Patch | HttpMethod::Delete => true,
        _ => false,
    }
}


/// `p` without its trailing slashes.
pub open spec fn trim_trailing_slashes(p: Seq<char>) -> Seq<char>
    decreases p.len(),
{
    if p.len() > 0 && p.last() == '/' { trim_trailing_slashes(p.drop_last()) } else { p }
}

/// A path segment that names a resource: not empty and not a UUID.
pub open spec fn names_resource(seg: Seq<char>) -> bool {
    seg.len() > 0 && uuid_parse(seg) is None
}

/// Scanning `p` from its end, with `seg` the part of the current segment
/// already passed: the first segment (from the right, split at `/`) that
/// names a resource, or `unknown` where none does.
pub open spec fn resource_from(p: Seq<char>, seg: Seq<char>) -> Seq<char>
    decreases p.len(),
{
    if p.len() == 0 {
        if names_resource(seg) { seg } else { "unknown"@ }
    } else if p.last() == '/' {
        if names_resource(seg) { seg } else { resource_from(p.drop_last(), Seq::empty()) }
    } else {
        resource_from(p.drop_last(), seq![p.last()] + seg)
    }
}

/// The resource a request path names: its last segment that is neither empty
/// nor a UUID, after trailing slashes are dropped; `unknown` where there is none.
pub open spec fn path_resource(path: Seq<char>) -> Seq<char> {
    resource_from(trim_trailing_slashes(path), Seq::empty())
}

/// Passing over characters that hold no `/` only lengthens the current
/// segment.
proof fn lemma_scan_segment(q: Seq<char>, s: Seq<char>, seg: Seq<char>)
    requires
        !s.contains('/'),
    ensures
        resource_from(q + s, seg) == resource_from(q, s + seg),
    decreases s.len(),
{
    if s.len() == 0 {
        assert(q + s =~= q);
        assert(s + seg =~= seg);
    } else {
        assert(s[s.len() - 1] == s.last());
        assert((q + s).last() == s.last());
        assert((q + s).drop_last() =~= q + s.drop_last());
        assert forall|c: char| s.drop_last().contains(c) implies s.contains(c) by {
            let k = choose|k: int| 0 <= k < s.drop_last().len() && s.drop_last()[k] == c;
            assert(s[k] == c);
        }
        lemma_scan_segment(q, s.drop_last(), seq![s.last()] + seg);
        assert(s.drop_last() + (seq![s.last()] + seg) =~= s + seg);
    }
}

/// Trailing slashes do not change the resource a path names.
proof fn lemma_trailing_slashes_ignored(p: Seq<char>)
    ensures
        resource_from(p, Seq::empty()) == resource_from(trim_trailing_slashes(p), Seq::empty()),
    decreases p.len(),
{
    if p.len() > 0 && p.last() == '/' {
        lemma_trailing_slashes_ignored(p.drop_last());
    }
}

/// The resource a path names is its last segment that is neither empty nor
/// a UUID, trailing slashes aside: a path ending in such a segment names
/// it; a UUID or a slash at its end is passed over to what comes before;
/// and whatever it names is `unknown` or a non-empty segment that is no
/// UUID and holds no slash.
pub proof fn lemma_path_resource(prefix: Seq<char>, seg: Seq<char>)
    requires
        seg.len() > 0,
        !seg.contains('/'),
    ensures
        uuid_parse(seg) is None ==> path_resource(prefix + "/"@ + seg) == seg,
        uuid_parse(seg) is Some ==> path_resource(prefix + "/"@ + seg) == path_resource(prefix),
        path_resource(prefix + "/"@) == path_resource(prefix),
        path_resource(Seq::empty()) == "unknown"@,
{
    reveal_strlit("/");
    let p = prefix + "/"@ + seg;
    assert(p.last() == seg.last());
    assert(seg[seg.len() - 1] == seg.last());
    assert(seg.contains(seg[seg.len() - 1]));
    assert(trim_trailing_slashes(p) == p);
    lemma_scan_segment(prefix + "/"@, seg, Seq::empty());
    assert(seg + Seq::<char>::empty() =~= seg);
    let q = prefix + "/"@;
    assert(q.last() == '/');
    assert(q.drop_last() =~= prefix);
    lemma_trailing_slashes_ignored(prefix);
    lemma_trailing_slashes_ignored(q);
}

/// The characters of `v` from `a` up to `b`.
fn text_between(v: &Vec<char>, a: usize, b: usize) -> (r: String)
    requires
        a <= b <= v@.len(),
    ensures
        r@ == v@.subrange(a as int, b as int),
{
    let mut w: Vec<char> = Vec::new();
    let mut i: usize = a;
    while i < b
        invariant
            a <= i <= b <= v@.len(),
            w@ == v@.subrange(a as int, i as int),
        decreases b - i,
    {
        w.push(v[i]);
        assert(v@.subrange(a as int, i + 1) =~= v@.subrange(a as int, i as int).push(v@[i as int]));
        i = i + 1;
    }
    string_of(&w)
}

/// Whether the characters of `v` from `a` up to `b` name a resource.
fn segment_names_resource(v: &Vec<char>, a: usize, b: usize) -> (r: bool)
    requires
        a <= b <= v@.len(),
    ensures
        r == names_resource(v@.subrange(a as int, b as int)),
{
    if a == b {
        return false;
    }
    let seg = text_between(v, a, b);
    parse_uuid(seg.as_str()).is_none()
}

/// The resource named by a request path (see `path_resource`).
pub fn path_resource_name(path: &str) -> (r: String)
    ensures
        r@ == path_resource(path@),
{
    let v = chars_of(path);
    let mut end: usize = v.len();
    assert(v@.take(end as int) =~= path@);
    while end > 0 && v[end - 1] == '/'
        invariant
            end <= v@.len(),
            v@ == path@,
            trim_trailing_slashes(v@.take(end as int)) == trim_trailing_slashes(path@),
        decreases end,
    {
        assert(v@.take(end as int).drop_last() =~= v@.take(end - 1));
        end = end - 1;
    }
    assert(trim_trailing_slashes(v@.take(end as int)) == v@.take(end as int));
    let ghost target = path_resource(path@);
    let mut i: usize = end;
    let mut seg_end: usize = end;
    assert(v@.subrange(end as int, end as int) =~= Seq::<char>::empty());
    loop
        invariant
            i <= seg_end <= end <= v@.len(),
            target == path_resource(path@),
            v@ == path@,
            target == resource_from(v@.take(i as int), v@.subrange(i as int, seg_end as int)),
        decreases i,
    {
        if i == 0 {
            assert(v@.take(0) =~= Seq::<char>::empty());
            if segment_names_resource(&v, 0, seg_end) {
                return text_between(&v, 0, seg_end);
            }
            return owned("unknown");
        }
        assert(v@.take(i as int).last() == v@[i - 1]);
        assert(v@.take(i as int).drop_last() =~= v@.take(i - 1));
        if v[i - 1] == '/' {
            if segment_names_resource(&v, i, seg_end) {
                return text_between(&v, i, seg_end);
            }
            assert(v@.subrange(i - 1, i - 1) =~= Seq::<char>::empty());
            i = i - 1;
            seg_end = i;
        } else {
            assert(seq![v@[i - 1]] + v@.subrange(i as int, seg_end as int) =~= v@.subrange(i - 1, seg_end as int));
            i = i - 1;
        }
    }
}

/// The operation a request performs, for keying idempotency records: the
/// method in lowercase, `_`, and the resource its path names.
pub open spec fn operation_name(path: Seq<char>, method: HttpMethod) -> Seq<char> {
    lowercase(method_text(method)) + "_"@ + path_resource(path)
}

/// Extract a meaningful operation name from the request path and method.
pub fn extract_operation_name(path: &str, method: &HttpMethod) -> (r: String)
    ensures
        r@ == operation_name(path@, *method),
{
    let mut r = to_lowercase(method.as_str());
    push_str(&mut r, "_");
    let resource = path_resource_name(path);
    push_str(&mut r, resource.as_str());
    r
}

/// What SHA-256 computes of a byte sequence.
pub uninterp spec fn sha256(data: Seq<u8>) -> Seq<u8>;

/// Calls `sha2::Sha256::digest`: the SHA-256 digest of the data, 32 bytes.
#[verifier::external_body]
fn sha256_digest(data: &[u8]) -> (d: Vec<u8>)
    ensures
        d@ == sha256(data@),
        d@.len() == 32,
{
    sha2::Sha256::digest(data).to_vec()
}

/// The bytes a request is fingerprinted by: method, `|`, path, `|`, body.
pub open spec fn request_fingerprint(method: HttpMethod, path: Seq<char>, body: Seq<u8>) -> Seq<u8> {
    encode_utf8(method_text(method)) + seq![124u8] + encode_utf8(path) + seq![124u8] + body
}

/// Compute the SHA-256 hash of method + path + body.
pub fn compute_request_hash(method: &HttpMethod, path: &str, body: &[u8]) -> (h: Vec<u8>)
    ensures
        h@ == sha256(request_fingerprint(*method, path@, body@)),
        h@.len() == 32,
{
    let mut data: Vec<u8> = Vec::new();
    data.extend_from_slice(method.as_str().as_bytes());
    data.push(124u8);
    data.extend_from_slice(path.as_bytes());
    data.push(124u8);
    data.extend_from_slice(body);
    proof {
        assert(data@ =~= request_fingerprint(*method, path@, body@));
    }
    sha256_digest(data.as_slice())
}

/// Errors that can occur in idempotency handling.
#[derive(Debug, Clone, PartialEq)]
pub enum IdempotencyError {
    /// Idempotency key is required but not provided
    MissingKey,
    /// Idempotency key format is invalid
    InvalidKey(String),
    /// Key exists but request hash doesn't match (different request)
    Conflict(String),
    /// Internal error (database, serialization, etc.)
    Internal(String),
}

/// Whether a key's length is acceptable: 1 to 256 bytes.
pub open spec fn key_length_ok(key: Seq<char>) -> bool {
    key.len() > 0 && encode_utf8(key).len() <= MAX_KEY_BYTES
}

/// Decide on the idempotency key of a mutating request: a present key must
/// be 1 to 256 bytes long; an absent key is an error only where keys are
/// required, and otherwise the request passes through (`None`).
pub fn admit_idempotency_key(key: Option<&str>, require_key: bool) -> (r: Result<Option<String>, IdempotencyError>)
    ensures
        key matches Some(k) ==> (key_length_ok(k@) ==> (r matches Ok(Some(s)) && s@ == k@)),
        key matches Some(k) ==> (!key_length_ok(k@) ==> (r matches Err(IdempotencyError::InvalidKey(m))
            && m@ == "Idempotency key must be 1-256 characters"@)),
        key is None ==> (require_key ==> r == Err::<Option<String>, IdempotencyError>(IdempotencyError::MissingKey)),
        key is None ==> (!require_key ==> r == Ok::<Option<String>, IdempotencyError>(None)),
{
    match key {
        Some(k) => {
            if k.is_empty() || k.as_bytes().len() > MAX_KEY_BYTES {
                Err(IdempotencyError::InvalidKey(owned("Idempotency key must be 1-256 characters")))
            } else {
                Ok(Some(owned(k)))
            }
        },
        None => if require_key { Err(IdempotencyError::MissingKey) } else { Ok(None) },
    }
}

/// The HTTP status and error body an idempotency error is answered with.
pub open spec fn idempotency_response(e: IdempotencyError) -> (u16, ErrorCode, Seq<char>) {
    match e {
        IdempotencyError::MissingKey => (400, ErrorCode::MissingField,
            "Header 'idempotency-key' is required for this operation"@),
        IdempotencyError::InvalidKey(m) => (400, ErrorCode::InvalidFormat, m@),
        IdempotencyError::Conflict(key) => (409, ErrorCode::StateConflict,
            "Idempotency key '"@ + key@ + "' was already used with a different request"@),
        IdempotencyError::Internal(_) => (500, ErrorCode::InternalError, "Internal server error"@),
    }
}

impl IdempotencyError {
    /// The HTTP status and the error body this error is answered with.
    pub fn error_response(&self) -> (r: (u16, ApiError))
        ensures
            r.0 == idempotency_response(*self).0,
            plain_error(r.1, idempotency_response(*self).1, idempotency_response(*self).2),
    {
        match self {
            IdempotencyError::MissingKey => {
                let mut m = owned("Header '");
                push_str(&mut m, IDEMPOTENCY_KEY_HEADER);
                push_str(&mut m, "' is required for this operation");
                proof {
                    reveal_strlit("Header '");
                    reveal_strlit("idempotency-key");
                    reveal_strlit("' is required for this operation");
                    reveal_strlit("Header 'idempotency-key' is required for this operation");
                    assert(m@ =~= "Header 'idempotency-key' is required for this operation"@);
                }
                (400, ApiError::new(ErrorCode::MissingField, m.as_str()))
            },
            IdempotencyError::InvalidKey(msg) => (400, ApiError::new(ErrorCode::InvalidFormat, msg.as_str())),
            IdempotencyError::Conflict(key) => {
                let mut m = owned("Idempotency key '");
                push_str(&mut m, key.as_str());
                push_str(&mut m, "' was already used with a different request");
                (409, ApiError::new(ErrorCode::StateConflict, m.as_str()))
            },
            IdempotencyError::Internal(_) => (500, ApiError::new(ErrorCode::InternalError, "Internal server error")),
        }
    }
}


/// What the idempotency middleware does with a request before touching the
/// store.
#[derive(Debug, Clone, PartialEq)]
pub enum IdempotencyDecision {
    /// Let the request through untouched.
    PassThrough,
    /// Refuse the request with this error.
    Reject(IdempotencyError),
    /// Look the key up for this tenant.
    Check { key: String, tenant_id: EntityId },
}

/// Decide on a request: non-mutating requests and key-less ones (where
/// keys are optional) pass through; a key must be 1 to 256 bytes; the
/// tenant must be known from authentication.
pub fn idempotency_decision(method: &HttpMethod, key: Option<&str>, require_key: bool, tenant_id: Option<EntityId>) -> (d: IdempotencyDecision)
    ensures
        !mutating(*method) ==> d == IdempotencyDecision::PassThrough,
        mutating(*method) && key is None && !require_key ==> d == IdempotencyDecision::PassThrough,
        mutating(*method) && key is None && require_key ==> d == IdempotencyDecision::Reject(IdempotencyError::MissingKey),
        mutating(*method) ==> (key matches Some(k) ==> (!key_length_ok(k@) ==> (d matches IdempotencyDecision::Reject(
            IdempotencyError::InvalidKey(m)) && m@ == "Idempotency key must be 1-256 characters"@))),
        mutating(*method) ==> (key matches Some(k) ==> (key_length_ok(k@) && tenant_id is None ==> (d matches
            IdempotencyDecision::Reject(IdempotencyError::Internal(m))
            && m@ == "Auth context missing, ensure auth middleware runs first"@))),
        mutating(*method) ==> (key matches Some(k) ==> (key_length_ok(k@) && tenant_id is Some ==> (d matches
            IdempotencyDecision::Check { key: kk, tenant_id: t } && kk@ == k@ && Some(t) == tenant_id))),
{
    if !is_mutating_method(method) {
        return IdempotencyDecision::PassThrough;
    }
    match admit_idempotency_key(key, require_key) {
        Err(e) => IdempotencyDecision::Reject(e),
        Ok(None) => IdempotencyDecision::PassThrough,
        Ok(Some(k)) => match tenant_id {
            Some(t) => IdempotencyDecision::Check { key: k, tenant_id: t },
            None => IdempotencyDecision::Reject(IdempotencyError::Internal(
                owned("Auth context missing, ensure auth middleware runs first"))),
        },
    }
}

/// What the key store says of a key: a response cached under it, or that the
/// key is new.
#[derive(Debug)]
pub enum IdempotencyCheckResult {
    /// Key exists with cached response
    Cached {
        status: i32,
        body: Option<JsonValue>,
    },
    /// Key is new, proceed with request
    New,
}

/// The outcome of checking a key, from the store's reply: the first row
/// (whether the key exists, the cached status and body) where the query
/// answered, or, where it failed, whether the failure was a unique violation
/// (the key reused for another request) and the failure's text.
pub fn idempotency_check_outcome(
    key: &str,
    reply: Result<Option<(bool, i32, Option<JsonValue>)>, (bool, String)>,
) -> (r: Result<IdempotencyCheckResult, IdempotencyError>)
    ensures
        match reply {
            Ok(Some((true, status, body))) => r == Ok::<IdempotencyCheckResult, IdempotencyError>(
                IdempotencyCheckResult::Cached { status, body }),
            Ok(_) => r == Ok::<IdempotencyCheckResult, IdempotencyError>(IdempotencyCheckResult::New),
            Err((true, _)) => r matches Err(IdempotencyError::Conflict(k)) && k@ == key@,
            Err((false, text)) => r matches Err(IdempotencyError::Internal(m))
                && m@ == "Failed to check idempotency key: "@ + text@,
        },
{
    match reply {
        Ok(Some((exists, status, body))) => {
            if exists {
                Ok(IdempotencyCheckResult::Cached { status, body })
            } else {
                Ok(IdempotencyCheckResult::New)
            }
        },
        Ok(None) => Ok(IdempotencyCheckResult::New),
        Err((unique_violation, text)) => {
            if unique_violation {
                Err(IdempotencyError::Conflict(owned(key)))
            } else {
                let mut m = owned("Failed to check idempotency key: ");
                push_str(&mut m, text.as_str());
                Err(IdempotencyError::Internal(m))
            }
        },
    }
}

/// The HTTP status a replayed response is answered with: the stored status
/// cut to 16 bits (as `as u16` does) where that is a valid status code
/// (100 to 999), and 500 otherwise.
pub fn replay_status(status: i32) -> (s: u16)
    ensures
        s == if 100 <= (status as u16) <= 999 { status as u16 } else { 500u16 },
{
    let code = status as u16;
    if 100 <= code && code <= 999 {
        code
    } else {
        500
    }
}

/// Exactly POST, PUT, PATCH and DELETE requests are mutating, and only they
/// are subject to idempotency keys.
pub proof fn lemma_mutating_methods(m: HttpMethod)
    ensures
        mutating(m) <==> (m == HttpMethod::Post || m == HttpMethod::Put || m == HttpMethod::Patch
            || m == HttpMethod::Delete),
{
}

/// An idempotency error is answered with the HTTP status of its error
/// code: 400 for a missing or invalid key, 409 for a key reused for another
/// request, 500 for an internal failure.
pub proof fn lemma_idempotency_error_status(e: IdempotencyError)
    ensures
        idempotency_response(e).0 == status_of(idempotency_response(e).1),
        e is MissingKey ==> idempotency_response(e).0 == 400,
        e is InvalidKey ==> idempotency_response(e).0 == 400,
        e is Conflict ==> idempotency_response(e).0 == 409,
        e is Internal ==> idempotency_response(e).0 == 500,
{
}

} // verus!
