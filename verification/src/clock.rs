//! The boundary to the wall clock.

use vstd::prelude::*;

verus! {

/// Relies on `chrono::Utc::now` (with `timestamp_micros`): the current time
/// in microseconds since the Unix epoch. The result depends on the
/// environment; nothing is promised of it, and the verified logic takes the
/// time as an argument. `Utc::now` itself aborts on a host clock before the
/// Unix epoch, which no contract here can exclude.
#[verifier::external_body]
pub(crate) fn now_micros() -> i64 {
    chrono::Utc::now().timestamp_micros()
}

/// What `to_rfc3339` prints for a UTC timestamp given in microseconds, or
/// empty text for a timestamp out of the representable range. UTC has no
/// time zone or locale in it, so this is a function of the timestamp alone.
pub uninterp spec fn rfc3339_of(micros: i64) -> Seq<char>;

/// Relies on `chrono::DateTime::<Utc>::from_timestamp_micros` and
/// `to_rfc3339`: render a timestamp as RFC 3339 text.
#[verifier::external_body]
pub(crate) fn format_rfc3339(micros: i64) -> (r: String)
    ensures
        r@ == rfc3339_of(micros),
{
    match chrono::DateTime::<chrono::Utc>::from_timestamp_micros(micros) {
        Some(t) => t.to_rfc3339(),
        None => String::new(),
    }
}

} // verus!
