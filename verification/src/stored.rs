//! The JSON documents the database functions take and return: a value type
//! that holds them as plain data, the field readers that turn a returned row
//! into typed values, and the builders of the update and filter documents
//! passed to them.

use vstd::prelude::*;
use crate::codes::{
    trajectory_status_name, outcome_status_name_parsed, outcome_status_or_success, OutcomeStatus, artifact_type_name_parsed, note_type_name_parsed, parsed_ttl, trajectory_status_name_parsed,
    turn_role_name_parsed, ArtifactType, NoteType, TrajectoryStatus, Ttl, TurnRole,
};
use crate::error::{plain_error, ApiError, ApiResult, ErrorCode};
use crate::ident::{parse_uuid, uuid_parse, uuid_text, uuid_to_string, EntityId, Timestamp};
use crate::text::{owned, push_str, str_eq};

verus! {

/// A JSON value.
///
/// Numbers are held the way they are read: one that is an integer in the
/// range of `i64` or `u64` as that integer, any other by its decimal text.
#[derive(Debug)]
pub enum JsonValue {
    Null,
    Bool(bool),
    Integer(i128),
    Decimal(String),
    Text(String),
    Array(Vec<JsonValue>),
    Object(Vec<(String, JsonValue)>),
}

/// The value stored under `key` among object entries: the first entry with
/// that key.
pub open spec fn entry_value(entries: Seq<(String, JsonValue)>, key: Seq<char>) -> Option<JsonValue>
    decreases entries.len(),
{
    if entries.len() == 0 {
        None
    } else if entries[0].0@ == key {
        Some(entries[0].1)
    } else {
        entry_value(entries.drop_first(), key)
    }
}

/// The value of a field: present only where the value is an object that
/// holds the key.
pub open spec fn field_of(v: JsonValue, key: Seq<char>) -> Option<JsonValue> {
    match v {
        JsonValue::Object(entries) => entry_value(entries@, key),
        _ => None,
    }
}

/// The text of a string value.
pub open spec fn text_of(v: JsonValue) -> Option<Seq<char>> {
    match v {
        JsonValue::Text(s) => Some(s@),
        _ => None,
    }
}

/// The integer of a number that fits in `i64`.
pub open spec fn i64_of(v: JsonValue) -> Option<i64> {
    match v {
        JsonValue::Integer(n) => if i64::MIN <= n <= i64::MAX { Some(n as i64) } else { None },
        _ => None,
    }
}

/// The integer of a number that fits in `u64`.
pub open spec fn u64_of(v: JsonValue) -> Option<u64> {
    match v {
        JsonValue::Integer(n) => if 0 <= n <= u64::MAX { Some(n as u64) } else { None },
        _ => None,
    }
}

/// The text of the string stored in a field, if it holds one.
pub open spec fn field_text(v: JsonValue, key: Seq<char>) -> Option<Seq<char>> {
    match field_of(v, key) {
        Some(f) => text_of(f),
        None => None,
    }
}

fn entry_lookup<'a>(entries: &'a Vec<(String, JsonValue)>, key: &str) -> (r: Option<&'a JsonValue>)
    ensures
        match entry_value(entries@, key@) {
            Some(v) => r == Some(&v),
            None => r is None,
        },
{
    let mut i: usize = 0;
    assert(entries@.skip(0) =~= entries@);
    while i < entries.len()
        invariant
            i <= entries.len(),
            entry_value(entries@, key@) == entry_value(entries@.skip(i as int), key@),
        decreases entries.len() - i,
    {
        assert(entries@.skip(i as int).drop_first() =~= entries@.skip(i + 1));
        if str_eq(entries[i].0.as_str(), key) {
            return Some(&entries[i].1);
        }
        i = i + 1;
    }
    None
}

impl JsonValue {
    /// The value stored under a key, where this is an object.
    pub fn get(&self, key: &str) -> (r: Option<&JsonValue>)
        ensures
            match field_of(*self, key@) {
                Some(v) => r == Some(&v),
                None => r is None,
            },
    {
        match self {
            JsonValue::Object(entries) => entry_lookup(entries, key),
            _ => None,
        }
    }

    /// The text, where this is a string.
    pub fn as_str(&self) -> (r: Option<&str>)
        ensures
            match text_of(*self) {
                Some(t) => r matches Some(s) && s@ == t,
                None => r is None,
            },
    {
        match self {
            JsonValue::Text(s) => Some(s.as_str()),
            _ => None,
        }
    }

    /// The flag, where this is a boolean.
    pub fn as_bool(&self) -> (r: Option<bool>)
        ensures
            r == (match *self {
                JsonValue::Bool(b) => Some(b),
                _ => None,
            }),
    {
        match self {
            JsonValue::Bool(b) => Some(*b),
            _ => None,
        }
    }

    /// The integer, where this is a number that fits in `i64`.
    pub fn as_i64(&self) -> (r: Option<i64>)
        ensures
            r == i64_of(*self),
    {
        match self {
            JsonValue::Integer(n) => {
                if i64::MIN as i128 <= *n && *n <= i64::MAX as i128 {
                    Some(*n as i64)
                } else {
                    None
                }
            },
            _ => None,
        }
    }

    /// The integer, where this is a number that fits in `u64`.
    pub fn as_u64(&self) -> (r: Option<u64>)
        ensures
            r == u64_of(*self),
    {
        match self {
            JsonValue::Integer(n) => {
                if 0 <= *n && *n <= u64::MAX as i128 {
                    Some(*n as u64)
                } else {
                    None
                }
            },
            _ => None,
        }
    }

    /// The items, where this is an array.
    pub fn as_array(&self) -> (r: Option<&Vec<JsonValue>>)
        ensures
            match *self {
                JsonValue::Array(items) => r == Some(&items),
                _ => r is None,
            },
    {
        match self {
            JsonValue::Array(items) => Some(items),
            _ => None,
        }
    }

    /// Whether this is `null`.
    pub fn is_null(&self) -> (r: bool)
        ensures
            r == (*self is Null),
    {
        match self {
            JsonValue::Null => true,
            _ => false,
        }
    }
}

/// The flag of a boolean value.
pub open spec fn bool_of(v: JsonValue) -> Option<bool> {
    match v {
        JsonValue::Bool(b) => Some(b),
        _ => None,
    }
}

/// What `chrono::DateTime::parse_from_rfc3339` makes of a text, taken as
/// milliseconds since the epoch: nothing when the text is no RFC 3339 date
/// and time.
pub uninterp spec fn rfc3339_millis(text: Seq<char>) -> Option<i64>;

/// Calls `chrono::DateTime::parse_from_rfc3339` and keeps the instant it
/// parses as milliseconds since the epoch.
#[verifier::external_body]
fn parse_rfc3339_millis(text: &str) -> (r: Option<i64>)
    ensures
        r == rfc3339_millis(text@),
{
    match chrono::DateTime::parse_from_rfc3339(text) {
        Ok(dt) => Some(dt.with_timezone(&chrono::Utc).timestamp_millis()),
        Err(_) => None,
    }
}

/// The message of the error for a field that is missing or of another kind.
pub open spec fn missing_field_message(field: Seq<char>) -> Seq<char> {
    "Missing or invalid field: "@ + field
}

/// The error for a field that is missing or of another kind.
fn missing_field(field: &str) -> (e: ApiError)
    ensures
        plain_error(e, ErrorCode::InternalError, missing_field_message(field@)),
{
    let mut m = owned("Missing or invalid field: ");
    push_str(&mut m, field);
    ApiError::internal_error(m.as_str())
}

/// An internal error whose message is `prefix` followed by `text`.
fn internal_with(prefix: &str, text: &str) -> (e: ApiError)
    ensures
        plain_error(e, ErrorCode::InternalError, prefix@ + text@),
{
    let mut m = owned(prefix);
    push_str(&mut m, text);
    ApiError::internal_error(m.as_str())
}

/// The items of the array stored in a field, if it holds one.
pub open spec fn field_items(v: JsonValue, key: Seq<char>) -> Option<Seq<JsonValue>> {
    match field_of(v, key) {
        Some(JsonValue::Array(items)) => Some(items@),
        _ => None,
    }
}

/// A number cut to eight bits as `as u8` does, or zero for any other value.
pub open spec fn byte_or_zero(v: JsonValue) -> u8 {
    match u64_of(v) {
        Some(n) => n as u8,
        None => 0,
    }
}

/// The numbers among the items, each cut to eight bits; other items are skipped.
pub open spec fn bytes_of(items: Seq<JsonValue>) -> Seq<u8>
    decreases items.len(),
{
    if items.len() == 0 {
        Seq::empty()
    } else {
        let rest = bytes_of(items.drop_last());
        match u64_of(items.last()) {
            Some(n) => rest.push(n as u8),
            None => rest,
        }
    }
}

/// The UUIDs among the items: strings that parse as one; other items are skipped.
pub open spec fn uuids_of(items: Seq<JsonValue>) -> Seq<EntityId>
    decreases items.len(),
{
    if items.len() == 0 {
        Seq::empty()
    } else {
        let rest = uuids_of(items.drop_last());
        match text_of(items.last()) {
            Some(t) => match uuid_parse(t) {
                Some(id) => rest.push(id),
                None => rest,
            },
            None => rest,
        }
    }
}

/// The texts of the strings among the items; other items are skipped.
pub open spec fn texts_of(items: Seq<JsonValue>) -> Seq<Seq<char>>
    decreases items.len(),
{
    if items.len() == 0 {
        Seq::empty()
    } else {
        let rest = texts_of(items.drop_last());
        match text_of(items.last()) {
            Some(t) => rest.push(t),
            None => rest,
        }
    }
}

/// The texts of a list of strings.
pub open spec fn string_views(v: Seq<String>) -> Seq<Seq<char>> {
    v.map_values(|s: String| s@)
}

/// The numbers among the items, each cut to eight bits.
fn collect_bytes(items: &Vec<JsonValue>) -> (r: Vec<u8>)
    ensures
        r@ == bytes_of(items@),
{
    let mut out: Vec<u8> = Vec::new();
    let mut i: usize = 0;
    while i < items.len()
        invariant
            i <= items.len(),
            out@ == bytes_of(items@.take(i as int)),
        decreases items.len() - i,
    {
        assert(items@.take(i + 1).drop_last() =~= items@.take(i as int));
        if let Some(n) = items[i].as_u64() {
            out.push(n as u8);
        }
        i = i + 1;
    }
    assert(items@.take(items.len() as int) =~= items@);
    out
}

/// The UUIDs among the items.
fn collect_uuids(items: &Vec<JsonValue>) -> (r: Vec<EntityId>)
    ensures
        r@ == uuids_of(items@),
{
    let mut out: Vec<EntityId> = Vec::new();
    let mut i: usize = 0;
    while i < items.len()
        invariant
            i <= items.len(),
            out@ == uuids_of(items@.take(i as int)),
        decreases items.len() - i,
    {
        assert(items@.take(i + 1).drop_last() =~= items@.take(i as int));
        if let Some(t) = items[i].as_str() {
            if let Some(id) = parse_uuid(t) {
                out.push(id);
            }
        }
        i = i + 1;
    }
    assert(items@.take(items.len() as int) =~= items@);
    out
}

/// The texts of the strings among the items.
fn collect_texts(items: &Vec<JsonValue>) -> (r: Vec<String>)
    ensures
        string_views(r@) == texts_of(items@),
{
    let mut out: Vec<String> = Vec::new();
    let mut i: usize = 0;
    while i < items.len()
        invariant
            i <= items.len(),
            string_views(out@) == texts_of(items@.take(i as int)),
        decreases items.len() - i,
    {
        assert(items@.take(i + 1).drop_last() =~= items@.take(i as int));
        if let Some(t) = items[i].as_str() {
            let ghost before = out@;
            out.push(owned(t));
            assert(string_views(out@) =~= string_views(before).push(t@));
        }
        i = i + 1;
    }
    assert(items@.take(items.len() as int) =~= items@);
    out
}

/// The outcome of a trajectory, as a response holds it.
#[derive(Debug, Clone)]
pub struct TrajectoryOutcomeResponse {
    pub status: OutcomeStatus,
    pub summary: String,
    pub produced_artifacts: Vec<EntityId>,
    pub produced_notes: Vec<EntityId>,
    pub error: Option<String>,
}

/// A checkpoint of a scope, as a response holds it.
#[derive(Debug, Clone)]
pub struct CheckpointResponse {
    pub context_state: Vec<u8>,
    pub recoverable: bool,
}

/// The text a field holds, or the empty text.
pub open spec fn text_or_empty(v: JsonValue, key: Seq<char>) -> Seq<char> {
    match field_text(v, key) {
        Some(t) => t,
        None => Seq::empty(),
    }
}

/// The items of the array a field holds, or none.
pub open spec fn items_or_empty(v: JsonValue, key: Seq<char>) -> Seq<JsonValue> {
    match field_items(v, key) {
        Some(items) => items,
        None => Seq::empty(),
    }
}

/// The outcome status a stored outcome names; success where it names none.
pub open spec fn stored_outcome_status(v: JsonValue) -> OutcomeStatus {
    match field_text(v, "status"@) {
        Some(t) => match outcome_status_name_parsed(t) {
            Some(s) => s,
            None => OutcomeStatus::Success,
        },
        None => OutcomeStatus::Success,
    }
}

/// Whether an outcome is what a stored outcome document reads as.
pub open spec fn outcome_read_from(o: TrajectoryOutcomeResponse, v: JsonValue) -> bool {
    &&& o.status == stored_outcome_status(v)
    &&& o.summary@ == text_or_empty(v, "summary"@)
    &&& o.produced_artifacts@ == uuids_of(items_or_empty(v, "produced_artifacts"@))
    &&& o.produced_notes@ == uuids_of(items_or_empty(v, "produced_notes"@))
    &&& match field_text(v, "error"@) {
        Some(t) => o.error matches Some(e) && e@ == t,
        None => o.error is None,
    }
}

/// Whether a checkpoint is what a stored checkpoint document reads as.
pub open spec fn checkpoint_read_from(c: CheckpointResponse, v: JsonValue) -> bool {
    &&& c.context_state@ == bytes_of(items_or_empty(v, "context_state"@))
    &&& c.recoverable == (match field_of(v, "recoverable"@) {
        Some(JsonValue::Bool(b)) => b,
        _ => false,
    })
}

/// Readers of the fields of a row that a database function returned.
impl JsonValue {
    /// The text of a field, where it holds a string.
    fn field_str(&self, field: &str) -> (r: Option<&str>)
        ensures
            match field_text(*self, field@) {
                Some(t) => r matches Some(s) && s@ == t,
                None => r is None,
            },
    {
        match self.get(field) {
            Some(v) => v.as_str(),
            None => None,
        }
    }

    /// The UUID a field holds as text; an internal error where the field
    /// holds no string, or one that is no UUID.
    pub fn parse_uuid(&self, field: &str) -> (r: ApiResult<EntityId>)
        ensures
            match field_text(*self, field@) {
                Some(t) => match uuid_parse(t) {
                    Some(id) => r == Ok::<EntityId, ApiError>(id),
                    None => r matches Err(e) && plain_error(e, ErrorCode::InternalError, "Invalid UUID in field: "@ + field@),
                },
                None => r matches Err(e) && plain_error(e, ErrorCode::InternalError, missing_field_message(field@)),
            },
    {
        match self.field_str(field) {
            Some(s) => match parse_uuid(s) {
                Some(id) => Ok(id),
                None => Err(internal_with("Invalid UUID in field: ", field)),
            },
            None => Err(missing_field(field)),
        }
    }

    /// The UUID a field holds as text; nothing where it is missing or does
    /// not parse.
    pub fn parse_optional_uuid(&self, field: &str) -> (r: Option<EntityId>)
        ensures
            r == (match field_text(*self, field@) {
                Some(t) => uuid_parse(t),
                None => None,
            }),
    {
        match self.field_str(field) {
            Some(s) => parse_uuid(s),
            None => None,
        }
    }

    /// The string a field holds; an internal error where it holds none.
    pub fn parse_string(&self, field: &str) -> (r: ApiResult<String>)
        ensures
            match field_text(*self, field@) {
                Some(t) => r matches Ok(s) && s@ == t,
                None => r matches Err(e) && plain_error(e, ErrorCode::InternalError, missing_field_message(field@)),
            },
    {
        match self.field_str(field) {
            Some(s) => Ok(owned(s)),
            None => Err(missing_field(field)),
        }
    }

    /// The string a field holds, if it holds one.
    pub fn parse_optional_string(&self, field: &str) -> (r: Option<String>)
        ensures
            match field_text(*self, field@) {
                Some(t) => r matches Some(s) && s@ == t,
                None => r is None,
            },
    {
        match self.field_str(field) {
            Some(s) => Some(owned(s)),
            None => None,
        }
    }

    /// The boolean a field holds; an internal error where it holds none.
    pub fn parse_bool(&self, field: &str) -> (r: ApiResult<bool>)
        ensures
            match field_of(*self, field@) {
                Some(v) if v is Bool => r == Ok::<bool, ApiError>(v->Bool_0),
                _ => r matches Err(e) && plain_error(e, ErrorCode::InternalError, missing_field_message(field@)),
            },
    {
        match self.get(field) {
            Some(v) => match v.as_bool() {
                Some(b) => Ok(b),
                None => Err(missing_field(field)),
            },
            None => Err(missing_field(field)),
        }
    }

    /// The integer a field holds, cut to 32 bits as `as i32` does; an
    /// internal error where it holds no integer in the range of `i64`.
    pub fn parse_i32(&self, field: &str) -> (r: ApiResult<i32>)
        ensures
            match field_of(*self, field@) {
                Some(v) if i64_of(v) is Some => r == Ok::<i32, ApiError>(i64_of(v)->0 as i32),
                _ => r matches Err(e) && plain_error(e, ErrorCode::InternalError, missing_field_message(field@)),
            },
    {
        match self.get(field) {
            Some(v) => match v.as_i64() {
                Some(n) => Ok(n as i32),
                None => Err(missing_field(field)),
            },
            None => Err(missing_field(field)),
        }
    }

    /// The instant a field holds as RFC 3339 text; an internal error where
    /// the field holds no string, or one that does not parse.
    pub fn parse_timestamp(&self, field: &str) -> (r: ApiResult<Timestamp>)
        ensures
            match field_text(*self, field@) {
                Some(t) => match rfc3339_millis(t) {
                    Some(ms) => r == Ok::<Timestamp, ApiError>(ms),
                    None => r matches Err(e) && plain_error(e, ErrorCode::InternalError, "Invalid timestamp in field: "@ + field@),
                },
                None => r matches Err(e) && plain_error(e, ErrorCode::InternalError, missing_field_message(field@)),
            },
    {
        match self.field_str(field) {
            Some(s) => match parse_rfc3339_millis(s) {
                Some(ms) => Ok(ms),
                None => Err(internal_with("Invalid timestamp in field: ", field)),
            },
            None => Err(missing_field(field)),
        }
    }

    /// The instant a field holds as RFC 3339 text, if it holds one that parses.
    pub fn parse_optional_timestamp(&self, field: &str) -> (r: Option<Timestamp>)
        ensures
            r == (match field_text(*self, field@) {
                Some(t) => rfc3339_millis(t),
                None => None,
            }),
    {
        match self.field_str(field) {
            Some(s) => parse_rfc3339_millis(s),
            None => None,
        }
    }

    /// The trajectory status a field names; an internal error where the
    /// field holds no string, or one that names no status.
    pub fn parse_trajectory_status(&self, field: &str) -> (r: ApiResult<TrajectoryStatus>)
        ensures
            match field_text(*self, field@) {
                Some(t) => match trajectory_status_name_parsed(t) {
                    Some(v) => r == Ok::<TrajectoryStatus, ApiError>(v),
                    None => r matches Err(e) && plain_error(e, ErrorCode::InternalError, "Invalid trajectory status: "@ + t),
                },
                None => r matches Err(e) && plain_error(e, ErrorCode::InternalError, missing_field_message(field@)),
            },
    {
        match self.field_str(field) {
            Some(s) => TrajectoryStatus::from_stored(s),
            None => Err(missing_field(field)),
        }
    }

    /// The artifact type a field names; an internal error where the field
    /// holds no string, or one that names no type.
    pub fn parse_artifact_type(&self, field: &str) -> (r: ApiResult<ArtifactType>)
        ensures
            match field_text(*self, field@) {
                Some(t) => match artifact_type_name_parsed(t) {
                    Some(v) => r == Ok::<ArtifactType, ApiError>(v),
                    None => r matches Err(e) && plain_error(e, ErrorCode::InternalError, "Invalid artifact type: "@ + t),
                },
                None => r matches Err(e) && plain_error(e, ErrorCode::InternalError, missing_field_message(field@)),
            },
    {
        match self.field_str(field) {
            Some(s) => ArtifactType::from_stored(s),
            None => Err(missing_field(field)),
        }
    }

    /// The note type a field names; an internal error where the field holds
    /// no string, or one that names no type.
    pub fn parse_note_type(&self, field: &str) -> (r: ApiResult<NoteType>)
        ensures
            match field_text(*self, field@) {
                Some(t) => match note_type_name_parsed(t) {
                    Some(v) => r == Ok::<NoteType, ApiError>(v),
                    None => r matches Err(e) && plain_error(e, ErrorCode::InternalError, "Invalid note type: "@ + t),
                },
                None => r matches Err(e) && plain_error(e, ErrorCode::InternalError, missing_field_message(field@)),
            },
    {
        match self.field_str(field) {
            Some(s) => NoteType::from_stored(s),
            None => Err(missing_field(field)),
        }
    }

    /// The turn role a field names; an internal error where the field holds
    /// no string, or one that names no role.
    pub fn parse_turn_role(&self, field: &str) -> (r: ApiResult<TurnRole>)
        ensures
            match field_text(*self, field@) {
                Some(t) => match turn_role_name_parsed(t) {
                    Some(v) => r == Ok::<TurnRole, ApiError>(v),
                    None => r matches Err(e) && plain_error(e, ErrorCode::InternalError, "Invalid turn role: "@ + t),
                },
                None => r matches Err(e) && plain_error(e, ErrorCode::InternalError, missing_field_message(field@)),
            },
    {
        match self.field_str(field) {
            Some(s) => TurnRole::from_stored(s),
            None => Err(missing_field(field)),
        }
    }

    /// The lifetime a field holds in its stored text; an internal error
    /// where the field holds no string, or one that is no lifetime.
    pub fn parse_ttl(&self, field: &str) -> (r: ApiResult<Ttl>)
        ensures
            match field_text(*self, field@) {
                Some(t) => match parsed_ttl(t) {
                    Ok(v) => r == Ok::<Ttl, ApiError>(v),
                    Err(m) => r matches Err(e) && plain_error(e, ErrorCode::InternalError, m),
                },
                None => r matches Err(e) && plain_error(e, ErrorCode::InternalError, missing_field_message(field@)),
            },
    {
        match self.field_str(field) {
            Some(s) => crate::codes::parse_ttl(s),
            None => Err(missing_field(field)),
        }
    }

    /// The items of the array a field holds.
    fn field_array(&self, field: &str) -> (r: Option<&Vec<JsonValue>>)
        ensures
            match field_items(*self, field@) {
                Some(items) => r matches Some(v) && v@ == items,
                None => r is None,
            },
    {
        match self.get(field) {
            Some(v) => v.as_array(),
            None => None,
        }
    }

    /// A 32-byte content hash held as an array of numbers, each cut to
    /// eight bits (an item that is no such number gives zero); an internal
    /// error where the field holds no array, or one of another length.
    pub fn parse_content_hash(&self, field: &str) -> (r: ApiResult<[u8; 32]>)
        ensures
            match field_items(*self, field@) {
                Some(items) => if items.len() == 32 {
                    r matches Ok(h) && forall|i: int| 0 <= i < 32 ==> #[trigger] h@[i] == byte_or_zero(items[i])
                } else {
                    r matches Err(e) && plain_error(e, ErrorCode::InternalError, "Invalid hash length in field: "@ + field@)
                },
                None => r matches Err(e) && plain_error(e, ErrorCode::InternalError, missing_field_message(field@)),
            },
    {
        let items = match self.field_array(field) {
            Some(items) => items,
            None => return Err(missing_field(field)),
        };
        if items.len() != 32 {
            return Err(internal_with("Invalid hash length in field: ", field));
        }
        let mut hash = [0u8; 32];
        let mut i: usize = 0;
        while i < 32
            invariant
                i <= 32,
                items.len() == 32,
                hash@.len() == 32,
                forall|j: int| 0 <= j < i ==> #[trigger] hash@[j] == byte_or_zero(items@[j]),
            decreases 32 - i,
        {
            let b: u8 = match items[i].as_u64() {
                Some(n) => n as u8,
                None => 0,
            };
            hash[i] = b;
            i = i + 1;
        }
        Ok(hash)
    }

    /// The numbers of the array a field holds, each cut to eight bits;
    /// other items are skipped. An internal error where the field holds no array.
    pub fn parse_bytes(&self, field: &str) -> (r: ApiResult<Vec<u8>>)
        ensures
            match field_items(*self, field@) {
                Some(items) => r matches Ok(b) && b@ == bytes_of(items),
                None => r matches Err(e) && plain_error(e, ErrorCode::InternalError, missing_field_message(field@)),
            },
    {
        match self.field_array(field) {
            Some(items) => Ok(collect_bytes(items)),
            None => Err(missing_field(field)),
        }
    }

    /// The UUIDs among the strings of the array a field holds; other items
    /// are skipped. An internal error where the field holds no array.
    pub fn parse_uuid_array(&self, field: &str) -> (r: ApiResult<Vec<EntityId>>)
        ensures
            match field_items(*self, field@) {
                Some(items) => r matches Ok(ids) && ids@ == uuids_of(items),
                None => r matches Err(e) && plain_error(e, ErrorCode::InternalError, missing_field_message(field@)),
            },
    {
        match self.field_array(field) {
            Some(items) => Ok(collect_uuids(items)),
            None => Err(missing_field(field)),
        }
    }

    /// The strings of the array a field holds; other items are skipped. An
    /// internal error where the field holds no array.
    pub fn parse_string_array(&self, field: &str) -> (r: ApiResult<Vec<String>>)
        ensures
            match field_items(*self, field@) {
                Some(items) => r matches Ok(v) && string_views(v@) == texts_of(items),
                None => r matches Err(e) && plain_error(e, ErrorCode::InternalError, missing_field_message(field@)),
            },
    {
        match self.field_array(field) {
            Some(items) => Ok(collect_texts(items)),
            None => Err(missing_field(field)),
        }
    }

    /// The UUIDs among the strings of the array a field holds, or none.
    fn uuids_or_empty(&self, field: &str) -> (r: Vec<EntityId>)
        ensures
            r@ == uuids_of(items_or_empty(*self, field@)),
    {
        match self.field_array(field) {
            Some(items) => collect_uuids(items),
            None => Vec::new(),
        }
    }

    /// The outcome stored in a field; nothing where the field is missing or
    /// `null`. Within the outcome a missing or unknown status reads as
    /// success, a missing summary as empty and a missing list as empty.
    pub fn parse_optional_outcome(&self, field: &str) -> (r: Option<TrajectoryOutcomeResponse>)
        ensures
            match field_of(*self, field@) {
                Some(v) => if v is Null {
                    r is None
                } else {
                    r matches Some(o) && outcome_read_from(o, v)
                },
                None => r is None,
            },
    {
        let v = match self.get(field) {
            Some(v) => v,
            None => return None,
        };
        if v.is_null() {
            return None;
        }
        let status = outcome_status_or_success(v.field_str("status"));
        let summary = match v.field_str("summary") {
            Some(s) => owned(s),
            None => String::new(),
        };
        let produced_artifacts = v.uuids_or_empty("produced_artifacts");
        let produced_notes = v.uuids_or_empty("produced_notes");
        let error = match v.field_str("error") {
            Some(s) => Some(owned(s)),
            None => None,
        };
        Some(TrajectoryOutcomeResponse { status, summary, produced_artifacts, produced_notes, error })
    }

    /// The checkpoint stored in a field; nothing where the field is missing
    /// or `null`. A missing state reads as empty, a missing flag as false.
    pub fn parse_optional_checkpoint(&self, field: &str) -> (r: Option<CheckpointResponse>)
        ensures
            match field_of(*self, field@) {
                Some(v) => if v is Null {
                    r is None
                } else {
                    r matches Some(c) && checkpoint_read_from(c, v)
                },
                None => r is None,
            },
    {
        let v = match self.get(field) {
            Some(v) => v,
            None => return None,
        };
        if v.is_null() {
            return None;
        }
        let context_state = match v.field_array("context_state") {
            Some(items) => collect_bytes(items),
            None => Vec::new(),
        };
        let recoverable = match v.get("recoverable") {
            Some(f) => match f.as_bool() {
                Some(b) => b,
                None => false,
            },
            None => false,
        };
        Some(CheckpointResponse { context_state, recoverable })
    }
}

/// The keys of object entries, in order.
pub open spec fn keys_of(entries: Seq<(String, JsonValue)>) -> Seq<Seq<char>> {
    entries.map_values(|e: (String, JsonValue)| e.0@)
}

/// A key where a value is present, and no key where it is absent.
pub open spec fn key_if(present: bool, key: Seq<char>) -> Seq<Seq<char>> {
    if present { seq![key] } else { Seq::empty() }
}

/// An entry appended after the others is found under its key only where
/// no earlier entry has that key.
proof fn lemma_entry_value_push(es: Seq<(String, JsonValue)>, e: (String, JsonValue), k: Seq<char>)
    ensures
        entry_value(es.push(e), k) == (match entry_value(es, k) {
            Some(v) => Some(v),
            None => if e.0@ == k { Some(e.1) } else { None },
        }),
    decreases es.len(),
{
    let pushed = es.push(e);
    assert(pushed.len() > 0);
    if es.len() == 0 {
        assert(pushed[0] == e);
        assert(pushed.drop_first() =~= Seq::<(String, JsonValue)>::empty());
        assert(entry_value(pushed.drop_first(), k) is None);
    } else {
        assert(pushed[0] == es[0]);
        assert(pushed.drop_first() =~= es.drop_first().push(e));
        lemma_entry_value_push(es.drop_first(), e, k);
    }
}

/// Appends an entry under a key that the object does not hold yet.
fn push_entry(entries: &mut Vec<(String, JsonValue)>, key: &str, value: JsonValue)
    requires
        entry_value(old(entries)@, key@) is None,
    ensures
        forall|k: Seq<char>| #[trigger] entry_value(final(entries)@, k) == if k == key@ {
            Some(value)
        } else {
            entry_value(old(entries)@, k)
        },
        keys_of(final(entries)@) == keys_of(old(entries)@).push(key@),
{
    let ghost before = entries@;
    let k = owned(key);
    let ghost e = (k, value);
    entries.push((k, value));
    assert forall|q: Seq<char>| #[trigger] entry_value(entries@, q) == if q == key@ {
        Some(value)
    } else {
        entry_value(before, q)
    } by {
        lemma_entry_value_push(before, e, q);
    }
    assert(keys_of(entries@) =~= keys_of(before).push(key@));
}

/// The update document for a trajectory: the fields a request changes,
/// in the order name, description, status, metadata.
pub fn trajectory_update_document(
    name: Option<&str>,
    description: Option<&str>,
    status: Option<TrajectoryStatus>,
    metadata: Option<JsonValue>,
) -> (r: JsonValue)
    ensures
        r matches JsonValue::Object(entries) && keys_of(entries@) == key_if(name is Some, "name"@)
            + key_if(description is Some, "description"@) + key_if(status is Some, "status"@)
            + key_if(metadata is Some, "metadata"@),
        match name {
            Some(n) => field_text(r, "name"@) == Some(n@),
            None => field_of(r, "name"@) is None,
        },
        match description {
            Some(d) => field_text(r, "description"@) == Some(d@),
            None => field_of(r, "description"@) is None,
        },
        match status {
            Some(s) => field_text(r, "status"@) == Some(trajectory_status_name(s)),
            None => field_of(r, "status"@) is None,
        },
        match metadata {
            Some(m) => field_of(r, "metadata"@) == Some(m),
            None => field_of(r, "metadata"@) is None,
        },
{
    proof {
        reveal_strlit("name");
        reveal_strlit("description");
        reveal_strlit("status");
        reveal_strlit("metadata");
        assert("name"@.len() == 4 && "description"@.len() == 11);
        assert("status"@.len() == 6 && "metadata"@.len() == 8);
    }
    let mut entries: Vec<(String, JsonValue)> = Vec::new();
    assert(keys_of(entries@) =~= Seq::<Seq<char>>::empty());
    if let Some(n) = name {
        push_entry(&mut entries, "name", JsonValue::Text(owned(n)));
    }
    let ghost after_name = entries@;
    if let Some(d) = description {
        push_entry(&mut entries, "description", JsonValue::Text(owned(d)));
    }
    let ghost after_description = entries@;
    if let Some(s) = status {
        push_entry(&mut entries, "status", JsonValue::Text(owned(s.as_str())));
    }
    let ghost after_status = entries@;
    if let Some(m) = metadata {
        push_entry(&mut entries, "metadata", m);
    }
    let r = JsonValue::Object(entries);
    assert(keys_of(after_name) =~= key_if(name is Some, "name"@));
    assert(keys_of(after_description) =~= key_if(name is Some, "name"@) + key_if(description is Some, "description"@));
    assert(keys_of(after_status) =~= key_if(name is Some, "name"@) + key_if(description is Some, "description"@)
        + key_if(status is Some, "status"@));
    r
}

/// Whether the items are strings with these texts, in order.
pub open spec fn text_items(items: Seq<JsonValue>, texts: Seq<Seq<char>>) -> bool {
    &&& items.len() == texts.len()
    &&& forall|i: int| 0 <= i < items.len() ==> text_of(#[trigger] items[i]) == Some(texts[i])
}

/// An array of strings with the texts of these strings.
fn text_array(v: &Vec<String>) -> (r: JsonValue)
    ensures
        r matches JsonValue::Array(items) && text_items(items@, string_views(v@)),
{
    let mut items: Vec<JsonValue> = Vec::new();
    let mut i: usize = 0;
    while i < v.len()
        invariant
            i <= v.len(),
            items@.len() == i,
            forall|j: int| 0 <= j < i ==> text_of(#[trigger] items@[j]) == Some(v@[j]@),
        decreases v.len() - i,
    {
        items.push(JsonValue::Text(owned(v[i].as_str())));
        i = i + 1;
    }
    JsonValue::Array(items)
}

/// The update document for an agent: the fields a request changes, in the
/// order status, current trajectory, current scope, capabilities, memory
/// access. Identifiers are written as UUID text; the memory access comes
/// already encoded.
pub fn agent_update_document(
    status: Option<&str>,
    current_trajectory_id: Option<EntityId>,
    current_scope_id: Option<EntityId>,
    capabilities: Option<&Vec<String>>,
    memory_access: Option<JsonValue>,
) -> (r: JsonValue)
    ensures
        r matches JsonValue::Object(entries) && keys_of(entries@) == key_if(status is Some, "status"@)
            + key_if(current_trajectory_id is Some, "current_trajectory_id"@)
            + key_if(current_scope_id is Some, "current_scope_id"@)
            + key_if(capabilities is Some, "capabilities"@)
            + key_if(memory_access is Some, "memory_access"@),
        match status {
            Some(s) => field_text(r, "status"@) == Some(s@),
            None => field_of(r, "status"@) is None,
        },
        match current_trajectory_id {
            Some(id) => field_text(r, "current_trajectory_id"@) == Some(uuid_text(id)),
            None => field_of(r, "current_trajectory_id"@) is None,
        },
        match current_scope_id {
            Some(id) => field_text(r, "current_scope_id"@) == Some(uuid_text(id)),
            None => field_of(r, "current_scope_id"@) is None,
        },
        match capabilities {
            Some(c) => field_items(r, "capabilities"@) matches Some(items) && text_items(items, string_views(c@)),
            None => field_of(r, "capabilities"@) is None,
        },
        match memory_access {
            Some(m) => field_of(r, "memory_access"@) == Some(m),
            None => field_of(r, "memory_access"@) is None,
        },
{
    proof {
        reveal_strlit("status");
        reveal_strlit("current_trajectory_id");
        reveal_strlit("current_scope_id");
        reveal_strlit("capabilities");
        reveal_strlit("memory_access");
        assert("status"@.len() == 6 && "current_trajectory_id"@.len() == 21);
        assert("current_scope_id"@.len() == 16 && "capabilities"@.len() == 12);
        assert("memory_access"@.len() == 13);
    }
    let mut entries: Vec<(String, JsonValue)> = Vec::new();
    assert(keys_of(entries@) =~= Seq::<Seq<char>>::empty());
    if let Some(s) = status {
        push_entry(&mut entries, "status", JsonValue::Text(owned(s)));
    }
    let ghost k1 = keys_of(entries@);
    if let Some(id) = current_trajectory_id {
        push_entry(&mut entries, "current_trajectory_id", JsonValue::Text(uuid_to_string(id)));
    }
    let ghost k2 = keys_of(entries@);
    if let Some(id) = current_scope_id {
        push_entry(&mut entries, "current_scope_id", JsonValue::Text(uuid_to_string(id)));
    }
    let ghost k3 = keys_of(entries@);
    if let Some(c) = capabilities {
        push_entry(&mut entries, "capabilities", text_array(c));
    }
    let ghost k4 = keys_of(entries@);
    if let Some(m) = memory_access {
        push_entry(&mut entries, "memory_access", m);
    }
    assert(k1 =~= key_if(status is Some, "status"@));
    assert(k2 =~= key_if(status is Some, "status"@) + key_if(current_trajectory_id is Some, "current_trajectory_id"@));
    assert(k3 =~= key_if(status is Some, "status"@) + key_if(current_trajectory_id is Some, "current_trajectory_id"@)
        + key_if(current_scope_id is Some, "current_scope_id"@));
    assert(k4 =~= key_if(status is Some, "status"@) + key_if(current_trajectory_id is Some, "current_trajectory_id"@)
        + key_if(current_scope_id is Some, "current_scope_id"@) + key_if(capabilities is Some, "capabilities"@));
    JsonValue::Object(entries)
}

/// The parameters of a message listing.
#[derive(Debug, Clone)]
pub struct MessageListParams<'a> {
    pub from_agent_id: Option<EntityId>,
    pub to_agent_id: Option<EntityId>,
    pub to_agent_type: Option<&'a str>,
    pub trajectory_id: Option<EntityId>,
    pub message_type: Option<&'a str>,
    pub priority: Option<&'a str>,
    pub undelivered_only: bool,
    pub unacknowledged_only: bool,
    pub limit: i32,
    pub offset: i32,
}

/// A value that is the UUID text of an identifier, or `null` where there is none.
pub open spec fn holds_opt_uuid(j: Option<JsonValue>, v: Option<EntityId>) -> bool {
    match v {
        Some(id) => j matches Some(x) && text_of(x) == Some(uuid_text(id)),
        None => j == Some(JsonValue::Null),
    }
}

/// A value that is a string with this text, or `null` where there is none.
pub open spec fn holds_opt_text(j: Option<JsonValue>, v: Option<Seq<char>>) -> bool {
    match v {
        Some(t) => j matches Some(x) && text_of(x) == Some(t),
        None => j == Some(JsonValue::Null),
    }
}

/// The view of an optional text.
pub open spec fn opt_str_view(s: Option<&str>) -> Option<Seq<char>> {
    match s {
        Some(t) => Some(t@),
        None => None,
    }
}

/// The UUID text of an identifier, or `null`.
fn opt_uuid_value(v: Option<EntityId>) -> (r: JsonValue)
    ensures
        holds_opt_uuid(Some(r), v),
{
    match v {
        Some(id) => JsonValue::Text(uuid_to_string(id)),
        None => JsonValue::Null,
    }
}

/// A string with the text, or `null`.
fn opt_text_value(v: Option<&str>) -> (r: JsonValue)
    ensures
        holds_opt_text(Some(r), opt_str_view(v)),
{
    match v {
        Some(t) => JsonValue::Text(owned(t)),
        None => JsonValue::Null,
    }
}

/// The keys of a message listing's filter document, in order.
pub open spec fn message_filter_keys() -> Seq<Seq<char>> {
    seq!["from_agent_id"@, "to_agent_id"@, "to_agent_type"@, "trajectory_id"@, "message_type"@,
        "priority"@, "undelivered_only"@, "unacknowledged_only"@, "limit"@, "offset"@]
}

impl<'a> MessageListParams<'a> {
    /// The filter document a message listing passes to the database: every
    /// parameter under its name (`null` where absent, identifiers as UUID
    /// text), and the tenant where the listing is limited to one.
    pub fn filter_document(&self, tenant_id: Option<EntityId>) -> (r: JsonValue)
        ensures
            r matches JsonValue::Object(entries) && keys_of(entries@) == message_filter_keys()
                + key_if(tenant_id is Some, "tenant_id"@),
            holds_opt_uuid(field_of(r, "from_agent_id"@), self.from_agent_id),
            holds_opt_uuid(field_of(r, "to_agent_id"@), self.to_agent_id),
            holds_opt_text(field_of(r, "to_agent_type"@), opt_str_view(self.to_agent_type)),
            holds_opt_uuid(field_of(r, "trajectory_id"@), self.trajectory_id),
            holds_opt_text(field_of(r, "message_type"@), opt_str_view(self.message_type)),
            holds_opt_text(field_of(r, "priority"@), opt_str_view(self.priority)),
            field_of(r, "undelivered_only"@) == Some(JsonValue::Bool(self.undelivered_only)),
            field_of(r, "unacknowledged_only"@) == Some(JsonValue::Bool(self.unacknowledged_only)),
            field_of(r, "limit"@) == Some(JsonValue::Integer(self.limit as i128)),
            field_of(r, "offset"@) == Some(JsonValue::Integer(self.offset as i128)),
            match tenant_id {
                Some(t) => field_text(r, "tenant_id"@) == Some(uuid_text(t)),
                None => field_of(r, "tenant_id"@) is None,
            },
    {
        proof {
            reveal_strlit("from_agent_id");
            reveal_strlit("to_agent_id");
            reveal_strlit("to_agent_type");
            reveal_strlit("trajectory_id");
            reveal_strlit("message_type");
            reveal_strlit("priority");
            reveal_strlit("undelivered_only");
            reveal_strlit("unacknowledged_only");
            reveal_strlit("limit");
            reveal_strlit("offset");
            reveal_strlit("tenant_id");
            assert("from_agent_id"@.len() == 13 && "to_agent_id"@.len() == 11 && "to_agent_type"@.len() == 13);
            assert("trajectory_id"@.len() == 13 && "message_type"@.len() == 12 && "priority"@.len() == 8);
            assert("undelivered_only"@.len() == 16 && "unacknowledged_only"@.len() == 19);
            assert("limit"@.len() == 5 && "offset"@.len() == 6 && "tenant_id"@.len() == 9);
            assert("from_agent_id"@[0] == 'f' && "to_agent_type"@[0] == 't' && "trajectory_id"@[0] == 't');
            assert("to_agent_type"@[1] == 'o' && "trajectory_id"@[1] == 'r');
        }
        let mut entries: Vec<(String, JsonValue)> = Vec::new();
        push_entry(&mut entries, "from_agent_id", opt_uuid_value(self.from_agent_id));
        push_entry(&mut entries, "to_agent_id", opt_uuid_value(self.to_agent_id));
        push_entry(&mut entries, "to_agent_type", opt_text_value(self.to_agent_type));
        push_entry(&mut entries, "trajectory_id", opt_uuid_value(self.trajectory_id));
        push_entry(&mut entries, "message_type", opt_text_value(self.message_type));
        push_entry(&mut entries, "priority", opt_text_value(self.priority));
        push_entry(&mut entries, "undelivered_only", JsonValue::Bool(self.undelivered_only));
        push_entry(&mut entries, "unacknowledged_only", JsonValue::Bool(self.unacknowledged_only));
        push_entry(&mut entries, "limit", JsonValue::Integer(self.limit as i128));
        push_entry(&mut entries, "offset", JsonValue::Integer(self.offset as i128));
        let ghost listed = keys_of(entries@);
        assert(listed =~= message_filter_keys());
        if let Some(t) = tenant_id {
            push_entry(&mut entries, "tenant_id", JsonValue::Text(uuid_to_string(t)));
        }
        JsonValue::Object(entries)
    }
}

} // verus!
