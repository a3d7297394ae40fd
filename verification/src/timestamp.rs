//! Lenient parsing of the upstream timestamp format.
//!
//! The raw feed sometimes omits the timezone / fractional-second suffix on a
//! timestamp. Such a value is normalized (a `.0Z` suffix is appended) before
//! it is interpreted as an ISO-8601 instant in UTC.

use vstd::prelude::*;

verus! {

/// The instant, as Unix seconds, that the ISO-8601 parser assigns to a
/// string, or `None` where the string is not a valid timestamp. The result
/// depends on the characters of the string alone.
pub uninterp spec fn iso8601_epoch_of(s: Seq<char>) -> Option<i64>;

/// Relies on chrono's `DateTime::parse_from_str` with the ISO-8601 format
/// `%+` and on `DateTime::timestamp`: both compute from the input characters
/// alone, and a string the format does not match parses to an error rather
/// than panicking.
#[verifier::external_body]
fn parse_iso8601(s: &str) -> (r: Option<i64>)
    ensures
        r == iso8601_epoch_of(s@),
{
    match chrono::DateTime::parse_from_str(s, "%+") {
        Ok(dt) => Some(dt.timestamp()),
        Err(_) => None,
    }
}

/// A timestamp with the suffix the upstream format sometimes omits restored:
/// a string that does not end in `Z` gains a `.0Z` suffix.
pub open spec fn normalized_timestamp(s: Seq<char>) -> Seq<char> {
    if s.len() > 0 && s.last() == 'Z' {
        s
    } else {
        s + ".0Z"@
    }
}

/// Restores the timezone / fractional-second suffix where the raw feed
/// omitted it.
pub fn normalize_timestamp(s: &str) -> (r: String)
    ensures
        r@ == normalized_timestamp(s@),
{
    let n = s.unicode_len();
    if n > 0 && s.get_char(n - 1) == 'Z' {
        s.to_owned()
    } else {
        let mut out = s.to_owned();
        out.append(".0Z");
        out
    }
}

/// Parses one timestamp of the raw feed: the value is normalized, then read
/// as an ISO-8601 instant in UTC. `None` reports a schema error.
pub fn parse_timestamp_lenient(s: &str) -> (r: Option<i64>)
    ensures
        r == iso8601_epoch_of(normalized_timestamp(s@)),
{
    let normalized = normalize_timestamp(s);
    parse_iso8601(normalized.as_str())
}

} // verus!
