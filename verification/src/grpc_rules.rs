//! What the gRPC services decide on their own: the tenant of a call, the
//! filter operators they accept, the status an API error is answered with,
//! and the filtering and paging of the note and trajectory listings.

use vstd::prelude::*;
use crate::codes::{note_type_name_parsed, trajectory_status_name_parsed, NoteType, TrajectoryStatus};
use crate::error::{ApiError, ErrorCode, status_of};
use crate::ident::{EntityId, Timestamp, uuid_parse, parse_uuid};
use crate::settings::{trim_ws, trim_text};
use crate::text::{ascii_lowercase, ascii_lower, owned, push_str, str_eq, chars_of, string_of};

verus! {

/// The status code of a refused gRPC call.
#[derive(Debug, Clone, Copy, PartialEq, Eq, Structural)]
pub enum GrpcCode {
    InvalidArgument,
    Unauthenticated,
    PermissionDenied,
    NotFound,
    AlreadyExists,
    Aborted,
    ResourceExhausted,
    FailedPrecondition,
    DeadlineExceeded,
    Internal,
    Unavailable,
}

/// The gRPC status code an API error code is answered with.
pub open spec fn grpc_code_of(code: ErrorCode) -> GrpcCode {
    match code {
        ErrorCode::Unauthorized | ErrorCode::InvalidToken | ErrorCode::TokenExpired => GrpcCode::Unauthenticated,
        ErrorCode::Forbidden => GrpcCode::PermissionDenied,
        ErrorCode::ValidationFailed | ErrorCode::InvalidInput | ErrorCode::MissingField
            | ErrorCode::InvalidRange | ErrorCode::InvalidFormat => GrpcCode::InvalidArgument,
        ErrorCode::EntityNotFound | ErrorCode::TenantNotFound | ErrorCode::TrajectoryNotFound
            | ErrorCode::ScopeNotFound | ErrorCode::ArtifactNotFound | ErrorCode::NoteNotFound
            | ErrorCode::AgentNotFound | ErrorCode::LockNotFound | ErrorCode::MessageNotFound
            | ErrorCode::ApiKeyNotFound | ErrorCode::WebhookNotFound => GrpcCode::NotFound,
        ErrorCode::EntityAlreadyExists => GrpcCode::AlreadyExists,
        ErrorCode::ConcurrentModification => GrpcCode::Aborted,
        ErrorCode::LockConflict | ErrorCode::ConnectionPoolExhausted
            | ErrorCode::TooManyRequests => GrpcCode::ResourceExhausted,
        ErrorCode::LockExpired | ErrorCode::StateConflict => GrpcCode::FailedPrecondition,
        ErrorCode::Timeout => GrpcCode::DeadlineExceeded,
        ErrorCode::InternalError | ErrorCode::DatabaseError => GrpcCode::Internal,
        ErrorCode::ServiceUnavailable => GrpcCode::Unavailable,
    }
}

/// The gRPC status code an API error code is answered with.
pub fn grpc_code(code: ErrorCode) -> (g: GrpcCode)
    ensures
        g == grpc_code_of(code),
{
    match code {
        ErrorCode::Unauthorized | ErrorCode::InvalidToken | ErrorCode::TokenExpired => GrpcCode::Unauthenticated,
        ErrorCode::Forbidden => GrpcCode::PermissionDenied,
        ErrorCode::ValidationFailed | ErrorCode::InvalidInput | ErrorCode::MissingField
            | ErrorCode::InvalidRange | ErrorCode::InvalidFormat => GrpcCode::InvalidArgument,
        ErrorCode::EntityNotFound | ErrorCode::TenantNotFound | ErrorCode::TrajectoryNotFound
            | ErrorCode::ScopeNotFound | ErrorCode::ArtifactNotFound | ErrorCode::NoteNotFound
            | ErrorCode::AgentNotFound | ErrorCode::LockNotFound | ErrorCode::MessageNotFound
            | ErrorCode::ApiKeyNotFound | ErrorCode::WebhookNotFound => GrpcCode::NotFound,
        ErrorCode::EntityAlreadyExists => GrpcCode::AlreadyExists,
        ErrorCode::ConcurrentModification => GrpcCode::Aborted,
        ErrorCode::LockConflict | ErrorCode::ConnectionPoolExhausted
            | ErrorCode::TooManyRequests => GrpcCode::ResourceExhausted,
        ErrorCode::LockExpired | ErrorCode::StateConflict => GrpcCode::FailedPrecondition,
        ErrorCode::Timeout => GrpcCode::DeadlineExceeded,
        ErrorCode::InternalError | ErrorCode::DatabaseError => GrpcCode::Internal,
        ErrorCode::ServiceUnavailable => GrpcCode::Unavailable,
    }
}

/// A refused gRPC call: its status code and message.
#[derive(Debug, Clone, PartialEq)]
pub struct GrpcError {
    pub code: GrpcCode,
    pub message: String,
}

/// An API error answers a gRPC call with the status its code maps to and
/// the same message.
impl From<ApiError> for GrpcError {
    fn from(e: ApiError) -> (g: GrpcError) {
        GrpcError { code: grpc_code(e.code), message: e.message }
    }
}

impl vstd::std_specs::convert::FromSpecImpl<ApiError> for GrpcError {
    open spec fn obeys_from_spec() -> bool {
        true
    }

    open spec fn from_spec(e: ApiError) -> GrpcError {
        GrpcError { code: grpc_code_of(e.code), message: e.message }
    }
}

/// The result is this refusal.
pub open spec fn refused<T>(r: Result<T, GrpcError>, code: GrpcCode, message: Seq<char>) -> bool {
    r matches Err(e) && e.code == code && e.message@ == message
}

/// An operator of a search filter.
#[derive(Debug, Clone, Copy, PartialEq, Eq, Structural)]
pub enum FilterOperator {
    Eq,
    Ne,
    Gt,
    Lt,
    Gte,
    Lte,
    Contains,
    In,
    Regex,
    And,
    Or,
    Not,
}

/// The operator a lowercase name denotes.
pub open spec fn operator_named(s: Seq<char>) -> Option<FilterOperator> {
    if s == "eq"@ { Some(FilterOperator::Eq) } else
    if s == "ne"@ { Some(FilterOperator::Ne) } else
    if s == "gt"@ { Some(FilterOperator::Gt) } else
    if s == "lt"@ { Some(FilterOperator::Lt) } else
    if s == "gte"@ { Some(FilterOperator::Gte) } else
    if s == "lte"@ { Some(FilterOperator::Lte) } else
    if s == "contains"@ { Some(FilterOperator::Contains) } else
    if s == "in"@ { Some(FilterOperator::In) } else
    if s == "regex"@ { Some(FilterOperator::Regex) } else
    if s == "and"@ { Some(FilterOperator::And) } else
    if s == "or"@ { Some(FilterOperator::Or) } else
    if s == "not"@ { Some(FilterOperator::Not) } else
    { None }
}

/// The ASCII lowercase of a text (as `str::to_ascii_lowercase`).
pub fn ascii_lowercase_text(s: &str) -> (r: String)
    ensures
        r@ == ascii_lowercase(s@),
{
    let v = chars_of(s);
    let mut w: Vec<char> = Vec::new();
    let mut i: usize = 0;
    while i < v.len()
        invariant
            i <= v@.len(),
            v@ == s@,
            w@ == ascii_lowercase(v@.take(i as int)),
        decreases v@.len() - i,
    {
        let c = v[i];
        let l = if 'A' <= c && c <= 'Z' { ((c as u8) + 32) as char } else { c };
        proof {
            if 'A' <= c && c <= 'Z' {
                assert(((c as u8) + 32) as char == ((c as u32) + 32) as char);
            }
        }
        w.push(l);
        assert(ascii_lowercase(v@.take(i + 1)) =~= ascii_lowercase(v@.take(i as int)).push(ascii_lower(c)));
        i = i + 1;
    }
    assert(v@.take(v@.len() as int) =~= s@);
    string_of(&w)
}

/// Parse a filter operator: trimmed, in any ASCII case.
pub fn parse_filter_operator(value: &str) -> (r: Result<FilterOperator, GrpcError>)
    ensures
        operator_named(ascii_lowercase(trim_ws(value@))) matches Some(op) ==> r == Ok::<FilterOperator, GrpcError>(op),
        operator_named(ascii_lowercase(trim_ws(value@))) is None ==> refused(r, GrpcCode::InvalidArgument,
            "Invalid filter operator"@),
{
    let trimmed = trim_text(value);
    let key = ascii_lowercase_text(trimmed.as_str());
    if str_eq(key.as_str(), "eq") {
        Ok(FilterOperator::Eq)
    } else if str_eq(key.as_str(), "ne") {
        Ok(FilterOperator::Ne)
    } else if str_eq(key.as_str(), "gt") {
        Ok(FilterOperator::Gt)
    } else if str_eq(key.as_str(), "lt") {
        Ok(FilterOperator::Lt)
    } else if str_eq(key.as_str(), "gte") {
        Ok(FilterOperator::Gte)
    } else if str_eq(key.as_str(), "lte") {
        Ok(FilterOperator::Lte)
    } else if str_eq(key.as_str(), "contains") {
        Ok(FilterOperator::Contains)
    } else if str_eq(key.as_str(), "in") {
        Ok(FilterOperator::In)
    } else if str_eq(key.as_str(), "regex") {
        Ok(FilterOperator::Regex)
    } else if str_eq(key.as_str(), "and") {
        Ok(FilterOperator::And)
    } else if str_eq(key.as_str(), "or") {
        Ok(FilterOperator::Or)
    } else if str_eq(key.as_str(), "not") {
        Ok(FilterOperator::Not)
    } else {
        Err(GrpcError { code: GrpcCode::InvalidArgument, message: owned("Invalid filter operator") })
    }
}

/// The tenant a gRPC call acts for: the `x-tenant-id` metadata where
/// present (`Some(None)` when its value is not text), else the tenant an
/// interceptor recorded.
pub fn resolve_call_tenant(metadata: Option<Option<&str>>, recorded: Option<EntityId>) -> (r: Result<EntityId, GrpcError>)
    ensures
        metadata matches Some(None) ==> refused(r, GrpcCode::InvalidArgument, "Invalid tenant ID header"@),
        metadata matches Some(Some(t)) ==> match uuid_parse(t@) {
            Some(id) => r == Ok::<EntityId, GrpcError>(id),
            None => refused(r, GrpcCode::InvalidArgument, "Invalid tenant ID format"@),
        },
        metadata is None ==> match recorded {
            Some(id) => r == Ok::<EntityId, GrpcError>(id),
            None => refused(r, GrpcCode::Unauthenticated, "Missing tenant ID"@),
        },
{
    match metadata {
        Some(None) => Err(GrpcError { code: GrpcCode::InvalidArgument, message: owned("Invalid tenant ID header") }),
        Some(Some(t)) => match parse_uuid(t) {
            Some(id) => Ok(id),
            None => Err(GrpcError { code: GrpcCode::InvalidArgument, message: owned("Invalid tenant ID format") }),
        },
        None => match recorded {
            Some(id) => Ok(id),
            None => Err(GrpcError { code: GrpcCode::Unauthenticated, message: owned("Missing tenant ID") }),
        },
    }
}

/// Whether `chrono` can hold an instant this many milliseconds from the
/// epoch as a `DateTime<Utc>` (`Utc.timestamp_millis_opt` gives a single
/// instant).
pub uninterp spec fn utc_representable(ms: i64) -> bool;

/// Calls `chrono::TimeZone::timestamp_millis_opt` on `Utc` and tells whether
/// it gave a single instant.
#[verifier::external_body]
fn utc_millis_representable(ms: i64) -> (r: bool)
    ensures
        r == utc_representable(ms),
{
    chrono::TimeZone::timestamp_millis_opt(&chrono::Utc, ms).single().is_some()
}

/// A timestamp a call gives in milliseconds; an invalid argument where
/// `chrono` cannot hold it.
pub fn parse_timestamp_millis(value: i64, field: &str) -> (r: Result<Timestamp, GrpcError>)
    ensures
        utc_representable(value) ==> r == Ok::<Timestamp, GrpcError>(value),
        !utc_representable(value) ==> refused(r, GrpcCode::InvalidArgument, "Invalid "@ + field@),
{
    if utc_millis_representable(value) {
        Ok(value)
    } else {
        let mut m = owned("Invalid ");
        push_str(&mut m, field);
        Err(GrpcError { code: GrpcCode::InvalidArgument, message: m })
    }
}

/// An optional timestamp a call gives in milliseconds: none stays none.
pub fn parse_optional_timestamp_millis(value: Option<i64>, field: &str) -> (r: Result<Option<Timestamp>, GrpcError>)
    ensures
        match value {
            Some(v) => if utc_representable(v) {
                r == Ok::<Option<Timestamp>, GrpcError>(Some(v))
            } else {
                refused(r, GrpcCode::InvalidArgument, "Invalid "@ + field@)
            },
            None => r == Ok::<Option<Timestamp>, GrpcError>(None),
        },
{
    match value {
        Some(v) => match parse_timestamp_millis(v, field) {
            Ok(t) => Ok(Some(t)),
            Err(e) => Err(e),
        },
        None => Ok(None),
    }
}

/// One page of a sequence: skip `offset` items, then take at most `limit`.
pub open spec fn page<T>(s: Seq<T>, offset: int, limit: int) -> Seq<T> {
    let rest = if offset < s.len() { s.skip(offset) } else { Seq::empty() };
    if limit < rest.len() { rest.take(limit) } else { rest }
}

/// The paging count a call gives, as `as usize` makes of it.
pub open spec fn count_of(v: Option<i32>, default: i32) -> usize {
    (match v {
        Some(n) => n,
        None => default,
    }) as usize
}

/// One page of the items of a vector.
fn page_of<T: Copy>(v: &Vec<T>, offset: usize, limit: usize) -> (r: Vec<T>)
    ensures
        r@ == page(v@, offset as int, limit as int),
{
    let mut out: Vec<T> = Vec::new();
    let start: usize = if offset < v.len() { offset } else { v.len() };
    let avail: usize = v.len() - start;
    let n: usize = if limit < avail { limit } else { avail };
    let mut i: usize = 0;
    while i < n
        invariant
            i <= n,
            start + n <= v.len(),
            out@ == v@.subrange(start as int, start + i),
        decreases n - i,
    {
        out.push(v[start + i]);
        assert(v@.subrange(start as int, start + i + 1) =~= v@.subrange(start as int, start + i).push(v@[start + i]));
        i = i + 1;
    }
    proof {
        let rest = if (offset as int) < v@.len() { v@.skip(offset as int) } else { Seq::<T>::empty() };
        assert(rest =~= v@.subrange(start as int, v@.len() as int));
        if (limit as int) < rest.len() {
            assert(rest.take(limit as int) =~= out@);
        } else {
            assert(rest =~= out@);
        }
    }
    out
}

/// What the note listing reads of a note.
#[derive(Debug, Clone, Copy, PartialEq, Eq, Structural)]
pub struct NoteRow {
    pub note_id: EntityId,
    pub note_type: NoteType,
    pub created_at: Timestamp,
}

/// What the trajectory listing reads of a trajectory.
#[derive(Debug, Clone, Copy, PartialEq, Eq, Structural)]
pub struct TrajectoryRow {
    pub trajectory_id: EntityId,
    pub agent_id: Option<EntityId>,
    pub parent_trajectory_id: Option<EntityId>,
}

/// The source trajectory a note listing names; an invalid argument where
/// the text is no UUID.
pub fn parse_source_trajectory_id(text: &str) -> (r: Result<EntityId, GrpcError>)
    ensures
        match uuid_parse(text@) {
            Some(u) => r == Ok::<EntityId, GrpcError>(u),
            None => refused(r, GrpcCode::InvalidArgument, "Invalid source_trajectory_id"@),
        },
{
    match parse_uuid(text) {
        Some(u) => Ok(u),
        None => Err(GrpcError { code: GrpcCode::InvalidArgument, message: owned("Invalid source_trajectory_id") }),
    }
}

/// Whether a note passes the listing's filters: the type (where one was
/// named that parses), created no earlier than `after` and no later than
/// `before`.
pub open spec fn note_kept(n: NoteRow, note_type: Option<NoteType>, after: Option<Timestamp>, before: Option<Timestamp>) -> bool {
    &&& (match note_type {
        Some(t) => n.note_type == t,
        None => true,
    })
    &&& (match after {
        Some(a) => n.created_at >= a,
        None => true,
    })
    &&& (match before {
        Some(b) => n.created_at <= b,
        None => true,
    })
}

/// The notes that pass the listing's filters, in order.
pub open spec fn notes_kept(ns: Seq<NoteRow>, note_type: Option<NoteType>, after: Option<Timestamp>, before: Option<Timestamp>) -> Seq<NoteRow>
    decreases ns.len(),
{
    if ns.len() == 0 {
        Seq::empty()
    } else {
        let rest = notes_kept(ns.drop_last(), note_type, after, before);
        if note_kept(ns.last(), note_type, after, before) { rest.push(ns.last()) } else { rest }
    }
}

/// The note type a filter text names; none where no text was given or it
/// names no type.
pub open spec fn type_filter(note_type: Option<&str>) -> Option<NoteType> {
    match note_type {
        Some(t) => note_type_name_parsed(t@),
        None => None,
    }
}

/// A page of the notes of a source trajectory: those of the named type (a
/// type text that names no type filters nothing) created within the bounds,
/// skipping `offset` (default 0) and taking `limit` (default 100), each
/// taken `as usize`; and how many notes passed the filters, taken `as i32`.
pub fn note_list_page(
    notes: Vec<NoteRow>,
    note_type: Option<&str>,
    created_after: Option<Timestamp>,
    created_before: Option<Timestamp>,
    offset: Option<i32>,
    limit: Option<i32>,
) -> (r: (Vec<NoteRow>, i32))
    ensures
        r.1 == notes_kept(notes@, type_filter(note_type), created_after, created_before).len() as i32,
        r.0@ == page(notes_kept(notes@, type_filter(note_type), created_after, created_before),
            count_of(offset, 0) as int, count_of(limit, 100) as int),
{
    let (kept, total) = note_list_filtered(notes, note_type, created_after, created_before);
    let off = (match offset {
        Some(o) => o,
        None => 0,
    }) as usize;
    let lim = (match limit {
        Some(l) => l,
        None => 100,
    }) as usize;
    (page_of(&kept, off, lim), total)
}

/// The filters of a trajectory listing: its status, which must be given and
/// name a status, and the agent and parent it names (none where the text is
/// no UUID).
pub fn trajectory_list_request(
    status: Option<&str>,
    agent_id: Option<&str>,
    parent_id: Option<&str>,
) -> (r: Result<(TrajectoryStatus, Option<EntityId>, Option<EntityId>), GrpcError>)
    ensures
        match (match status {
            Some(s) => trajectory_status_name_parsed(s@),
            None => None,
        }) {
            Some(st) => r == Ok::<(TrajectoryStatus, Option<EntityId>, Option<EntityId>), GrpcError>((
                st,
                match agent_id {
                    Some(a) => uuid_parse(a@),
                    None => None,
                },
                match parent_id {
                    Some(p) => uuid_parse(p@),
                    None => None,
                },
            )),
            None => refused(r, GrpcCode::InvalidArgument, "status filter required"@),
        },
{
    let st = match status {
        Some(s) => TrajectoryStatus::parse(s),
        None => None,
    };
    let agent = match agent_id {
        Some(a) => parse_uuid(a),
        None => None,
    };
    let parent = match parent_id {
        Some(p) => parse_uuid(p),
        None => None,
    };
    match st {
        Some(st) => Ok((st, agent, parent)),
        None => Err(GrpcError { code: GrpcCode::InvalidArgument, message: owned("status filter required") }),
    }
}

/// Whether a trajectory passes the listing's agent and parent filters.
pub open spec fn trajectory_kept(t: TrajectoryRow, agent: Option<EntityId>, parent: Option<EntityId>) -> bool {
    &&& (match agent {
        Some(a) => t.agent_id == Some(a),
        None => true,
    })
    &&& (match parent {
        Some(p) => t.parent_trajectory_id == Some(p),
        None => true,
    })
}

/// The trajectories that pass the listing's filters, in order.
pub open spec fn trajectories_kept(ts: Seq<TrajectoryRow>, agent: Option<EntityId>, parent: Option<EntityId>) -> Seq<TrajectoryRow>
    decreases ts.len(),
{
    if ts.len() == 0 {
        Seq::empty()
    } else {
        let rest = trajectories_kept(ts.drop_last(), agent, parent);
        if trajectory_kept(ts.last(), agent, parent) { rest.push(ts.last()) } else { rest }
    }
}

/// A page of the trajectories of a status: those of the agent and parent
/// named, skipping `offset` (default 0) and taking `limit` (default 100),
/// each taken `as usize`; and how many passed the filters, taken `as i32`.
pub fn trajectory_list_page(
    rows: Vec<TrajectoryRow>,
    agent: Option<EntityId>,
    parent: Option<EntityId>,
    offset: Option<i32>,
    limit: Option<i32>,
) -> (r: (Vec<TrajectoryRow>, i32))
    ensures
        r.1 == trajectories_kept(rows@, agent, parent).len() as i32,
        r.0@ == page(trajectories_kept(rows@, agent, parent), count_of(offset, 0) as int, count_of(limit, 100) as int),
{
    let mut kept: Vec<TrajectoryRow> = Vec::new();
    let mut i: usize = 0;
    while i < rows.len()
        invariant
            i <= rows.len(),
            kept@ == trajectories_kept(rows@.take(i as int), agent, parent),
        decreases rows.len() - i,
    {
        assert(rows@.take(i + 1).drop_last() =~= rows@.take(i as int));
        let t = rows[i];
        let agent_ok = match agent {
            Some(a) => t.agent_id == Some(a),
            None => true,
        };
        let parent_ok = match parent {
            Some(p) => t.parent_trajectory_id == Some(p),
            None => true,
        };
        if agent_ok && parent_ok {
            kept.push(t);
        }
        i = i + 1;
    }
    assert(rows@.take(rows@.len() as int) =~= rows@);
    let total = kept.len() as i32;
    let off = (match offset {
        Some(o) => o,
        None => 0,
    }) as usize;
    let lim = (match limit {
        Some(l) => l,
        None => 100,
    }) as usize;
    (page_of(&kept, off, lim), total)
}

/// The notes of a listing without a source trajectory, as the database's
/// page gave them: those of the named type (a type text that names no type
/// filters nothing) created within the bounds; and how many they are, taken
/// `as i32`.
pub fn note_list_filtered(
    notes: Vec<NoteRow>,
    note_type: Option<&str>,
    created_after: Option<Timestamp>,
    created_before: Option<Timestamp>,
) -> (r: (Vec<NoteRow>, i32))
    ensures
        r.0@ == notes_kept(notes@, type_filter(note_type), created_after, created_before),
        r.1 == r.0@.len() as i32,
{
    let ty = match note_type {
        Some(t) => NoteType::parse(t),
        None => None,
    };
    let mut kept: Vec<NoteRow> = Vec::new();
    let mut i: usize = 0;
    while i < notes.len()
        invariant
            i <= notes.len(),
            ty == type_filter(note_type),
            kept@ == notes_kept(notes@.take(i as int), ty, created_after, created_before),
        decreases notes.len() - i,
    {
        assert(notes@.take(i + 1).drop_last() =~= notes@.take(i as int));
        let n = notes[i];
        let type_ok = match ty {
            Some(t) => n.note_type == t,
            None => true,
        };
        let after_ok = match created_after {
            Some(a) => n.created_at >= a,
            None => true,
        };
        let before_ok = match created_before {
            Some(b) => n.created_at <= b,
            None => true,
        };
        if type_ok && after_ok && before_ok {
            kept.push(n);
        }
        i = i + 1;
    }
    assert(notes@.take(notes@.len() as int) =~= notes@);
    let total = kept.len() as i32;
    (kept, total)
}

/// The gRPC code of each error code, class by class: a conflict is answered
/// `AlreadyExists` for an entity that already exists, `Aborted` for a
/// concurrent modification, `ResourceExhausted` for a lock conflict and
/// `FailedPrecondition` for an expired lock or a state conflict. The gRPC
/// answer agrees with the HTTP one: `Unauthenticated` exactly for the 401
/// codes, `PermissionDenied` for 403, `InvalidArgument` for 400, `NotFound`
/// for 404, `DeadlineExceeded` for 504 and `Internal` for 500.
pub proof fn lemma_grpc_code_by_class(code: ErrorCode)
    ensures
        code == ErrorCode::EntityAlreadyExists <==> grpc_code_of(code) == GrpcCode::AlreadyExists,
        code == ErrorCode::ConcurrentModification <==> grpc_code_of(code) == GrpcCode::Aborted,
        grpc_code_of(code) == GrpcCode::ResourceExhausted <==> (code == ErrorCode::LockConflict
            || code == ErrorCode::ConnectionPoolExhausted || code == ErrorCode::TooManyRequests),
        grpc_code_of(code) == GrpcCode::FailedPrecondition <==> (code == ErrorCode::LockExpired
            || code == ErrorCode::StateConflict),
        grpc_code_of(code) == GrpcCode::Unavailable <==> code == ErrorCode::ServiceUnavailable,
        grpc_code_of(code) == GrpcCode::Unauthenticated <==> status_of(code) == 401,
        grpc_code_of(code) == GrpcCode::PermissionDenied <==> status_of(code) == 403,
        grpc_code_of(code) == GrpcCode::InvalidArgument <==> status_of(code) == 400,
        grpc_code_of(code) == GrpcCode::NotFound <==> status_of(code) == 404,
        grpc_code_of(code) == GrpcCode::DeadlineExceeded <==> status_of(code) == 504,
        grpc_code_of(code) == GrpcCode::Internal <==> status_of(code) == 500,
{
}

} // verus!
