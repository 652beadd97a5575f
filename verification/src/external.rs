//! Trusted boundary to external collaborators: the system clock, the
//! identifier generator, and Unicode case folding.

use vstd::prelude::*;

verus! {

/// What `str::to_lowercase` returns for a given character sequence; the
/// result depends on the characters alone.
pub uninterp spec fn lower_of(s: Seq<char>) -> Seq<char>;

/// Relies on str::to_lowercase: folds a string to lower case; the result is
/// a function of the characters alone.
#[verifier::external_body]
pub(crate) fn to_lowercase(s: &str) -> (r: String)
    ensures
        r@ == lower_of(s@),
{
    s.to_lowercase()
}

/// Relies on chrono::Utc::now and chrono::DateTime::timestamp_millis: the
/// wall-clock time in milliseconds since the Unix epoch. Nothing is assumed
/// of the value: the clock is outside the verified world.
#[verifier::external_body]
pub(crate) fn now_millis() -> i64 {
    chrono::Utc::now().timestamp_millis()
}

/// What chrono's RFC 3339 rendering returns for a timestamp, the empty
/// sequence where the timestamp is out of the representable range; the
/// result depends on the value alone.
pub uninterp spec fn rfc3339_of(ms: i64) -> Seq<char>;

/// Relies on chrono::DateTime::from_timestamp_millis and
/// chrono::DateTime::to_rfc3339: renders a timestamp in RFC 3339 form; a
/// value outside the representable range renders as the empty string.
#[verifier::external_body]
pub(crate) fn format_rfc3339(ms: i64) -> (r: String)
    ensures
        r@ == rfc3339_of(ms),
{
    match chrono::DateTime::<chrono::Utc>::from_timestamp_millis(ms) {
        Some(d) => d.to_rfc3339(),
        None => String::new(),
    }
}

/// Relies on uuid::Uuid::new_v4 and its hyphenated `Display` form, which the
/// uuid documentation fixes at 36 ASCII characters. The identifier itself is
/// random, so nothing else is assumed.
#[verifier::external_body]
pub(crate) fn fresh_uuid() -> (r: String)
    ensures
        r@.len() == 36,
{
    uuid::Uuid::new_v4().to_string()
}

} // verus!
