//! Entity identifiers and timestamps.
//!
//! An entity identifier is the 128-bit value of a UUID; a timestamp is a
//! count of milliseconds since the Unix epoch (UTC).

use vstd::prelude::*;

verus! {

/// The 128-bit value of a UUID, most significant byte first.
pub type EntityId = u128;

/// Milliseconds since 1970-01-01T00:00:00Z.
pub type Timestamp = i64;

/// The timestamps the library takes from the clock lie within this many
/// milliseconds of the epoch.
pub const CLOCK_RANGE_MILLIS: i64 = 9_007_199_254_740_992;

/// The system clock could not give a usable reading: it is set before the
/// Unix epoch, or beyond the range of timestamps.
#[derive(Debug, Clone, Copy, PartialEq, Eq, Structural)]
pub struct ClockUnavailable;

/// Calls `std::time::SystemTime::now` and `duration_since(UNIX_EPOCH)`, and
/// returns the whole seconds and the nanoseconds of the second: `Ok` for a
/// time after the epoch, `Err` (the span before it) for one before. The
/// reading depends on the clock; the contract claims only that the
/// nanoseconds of a `Duration` stay below one second.
#[verifier::external_body]
fn system_clock() -> (r: Result<(u64, u32), (u64, u32)>)
    ensures
        match r {
            Ok((_, n)) => n < 1_000_000_000,
            Err((_, n)) => n < 1_000_000_000,
        },
{
    match std::time::SystemTime::now().duration_since(std::time::UNIX_EPOCH) {
        Ok(d) => Ok((d.as_secs(), d.subsec_nanos())),
        Err(e) => Err((e.duration().as_secs(), e.duration().subsec_nanos())),
    }
}

/// Calls `uuid::Uuid::new_v7` on `uuid::Timestamp::from_unix(NoContext, ..)`
/// for this instant after the epoch, and returns the UUID's 128-bit value.
/// Nothing is claimed of the value: the random part comes from the operating
/// system's random source (the uuid crate panics only where that source fails).
#[verifier::external_body]
fn v7_entity_id(secs: u64, nanos: u32) -> (id: EntityId) {
    uuid::Uuid::new_v7(uuid::Timestamp::from_unix(uuid::NoContext, secs, nanos)).as_u128()
}

/// A new version-7 UUID for the clock's current time; unavailable where the
/// clock reads before the epoch.
pub(crate) fn new_entity_id() -> (id: Result<EntityId, ClockUnavailable>) {
    match system_clock() {
        Ok((secs, nanos)) => Ok(v7_entity_id(secs, nanos)),
        Err(_) => Err(ClockUnavailable),
    }
}

/// The clock's current time in milliseconds since the epoch; unavailable
/// where the clock reads before the epoch or later than `CLOCK_RANGE_MILLIS`.
pub(crate) fn current_time_millis() -> (t: Result<Timestamp, ClockUnavailable>)
    ensures
        t matches Ok(ms) ==> 0 <= ms <= CLOCK_RANGE_MILLIS,
{
    match system_clock() {
        Ok((secs, nanos)) => {
            let ms: u128 = secs as u128 * 1000 + (nanos / 1_000_000) as u128;
            if ms <= CLOCK_RANGE_MILLIS as u128 {
                Ok(ms as i64)
            } else {
                Err(ClockUnavailable)
            }
        },
        Err(_) => Err(ClockUnavailable),
    }
}

/// The clock's current time in whole seconds since the epoch, negative for a
/// time before it (whole seconds towards the epoch), and held at the bounds
/// of `i64` beyond them.
pub(crate) fn current_time_secs() -> (t: i64) {
    match system_clock() {
        Ok((secs, _)) => if secs <= i64::MAX as u64 { secs as i64 } else { i64::MAX },
        Err((secs, _)) => if secs <= i64::MAX as u64 { 0 - secs as i64 } else { i64::MIN },
    }
}

/// The lowercase hexadecimal digit for a value below 16.
pub open spec fn hex_digit(n: int) -> char {
    if n < 10 { (48 + n) as char } else { (87 + n) as char }
}

/// Hex digit `k` (0 = most significant) of a 128-bit identifier.
pub open spec fn id_nibble(id: EntityId, k: int) -> int {
    ((id >> ((4 * (31 - k)) as u32)) & 15) as int
}

/// Which hex digit of the identifier stands at position `p` of its text.
pub open spec fn nibble_at(p: int) -> int {
    if p < 8 { p } else if p < 13 { p - 1 } else if p < 18 { p - 2 } else if p < 23 { p - 3 } else { p - 4 }
}

/// The hyphenated lowercase text of a UUID, e.g.
/// `67e55044-10b1-426f-9247-bb680e5fe0c8`: 32 hex digits, most significant
/// first, with hyphens at positions 8, 13, 18 and 23.
pub open spec fn uuid_text(id: EntityId) -> Seq<char> {
    Seq::new(36, |p: int|
        if p == 8 || p == 13 || p == 18 || p == 23 { '-' } else { hex_digit(id_nibble(id, nibble_at(p))) })
}

/// Calls `Display` of `uuid::Uuid` on the UUID with this value. The uuid
/// crate formats a UUID as its hyphenated lowercase text, and its parser
/// reads that text back as the same UUID.
#[verifier::external_body]
pub(crate) fn uuid_to_string(id: EntityId) -> (s: String)
    ensures
        s@ == uuid_text(id),
        uuid_parse(s@) == Some(id),
{
    uuid::Uuid::from_u128(id).to_string()
}

/// What `uuid::Uuid::parse_str` makes of a text: the UUID's value, or
/// nothing when the text is no UUID in one of the forms the crate accepts.
pub uninterp spec fn uuid_parse(text: Seq<char>) -> Option<EntityId>;

/// Calls `uuid::Uuid::parse_str` and keeps the value of the UUID it parses.
#[verifier::external_body]
pub(crate) fn parse_uuid(text: &str) -> (r: Option<EntityId>)
    ensures
        r == uuid_parse(text@),
{
    match uuid::Uuid::parse_str(text) {
        Ok(u) => Some(u.as_u128()),
        Err(_) => None,
    }
}

/// The text of an identifier: its UUID, hyphenated and lowercase. Reading
/// the text back as a UUID gives the identifier.
pub fn entity_id_text(id: EntityId) -> (s: String)
    ensures
        s@ == uuid_text(id),
        uuid_parse(s@) == Some(id),
{
    uuid_to_string(id)
}

} // verus!
