//! Rendering timestamps as calendar text.
//!
//! The engine computes with plain millisecond values; only the final
//! rendering of a timestamp into RFC 3339 text is delegated to chrono.

use vstd::prelude::*;

verus! {

/// The RFC 3339 text of a millisecond timestamp, rendered in UTC.
pub uninterp spec fn rfc3339_of(ms: int) -> Seq<char>;

/// Earliest millisecond value the renderer promises to format (year 1).
pub const RENDER_MIN_MS: i64 = -62135596800000;

/// Latest millisecond value the renderer promises to format (year 9999).
pub const RENDER_MAX_MS: i64 = 253402300799999;

/// Relies on chrono's `DateTime::<Utc>::from_timestamp_millis` and
/// `DateTime::to_rfc3339`: the text is a function of the millisecond value
/// alone (UTC calendar, `+00:00` offset, no locale), and every value between
/// the years 1 and 9999 is far inside chrono's representable range.
#[verifier::external_body]
fn format_rfc3339(ms: i64) -> (r: Option<String>)
    ensures
        r matches Some(s) ==> s@ == rfc3339_of(ms as int),
        RENDER_MIN_MS <= ms <= RENDER_MAX_MS ==> r is Some,
{
    match chrono::DateTime::from_timestamp_millis(ms) {
        Some(dt) => Some(dt.to_rfc3339()),
        None => None,
    }
}

/// The display text of a timestamp: its RFC 3339 rendering for any value a
/// calendar can hold, empty text for the few values outside every calendar.
pub fn timestamp_text(ms: i64) -> (r: String)
    ensures
        RENDER_MIN_MS <= ms <= RENDER_MAX_MS ==> r@ == rfc3339_of(ms as int),
        r@ == rfc3339_of(ms as int) || r@ == Seq::<char>::empty(),
{
    match format_rfc3339(ms) {
        Some(s) => s,
        None => String::new(),
    }
}

} // verus!
