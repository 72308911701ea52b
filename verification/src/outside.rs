//! The calls this library makes into outside crates, each behind a
//! trusted declaration that states only what the callee's source or
//! documentation shows.

use vstd::prelude::*;

verus! {

/// The instant an ISO-8601 string denotes, as seconds since the Unix
/// epoch; nothing when the string is not a valid timestamp.  A pure
/// function of the text.
pub uninterp spec fn timestamp_seconds_of(s: Seq<char>) -> Option<i64>;

/// Relies on `iso8601_timestamp::Timestamp::parse`, whose result
/// depends on the text alone, and on `Timestamp::duration_since`
/// against the Unix epoch to read it out in whole seconds.
#[verifier::external_body]
pub(crate) fn parse_timestamp_seconds(s: &str) -> (r: Option<i64>)
    ensures
        r == timestamp_seconds_of(s@),
{
    iso8601_timestamp::Timestamp::parse(s).map(
        |t|
            t.duration_since(iso8601_timestamp::Timestamp::UNIX_EPOCH).whole_seconds(),
    )
}

/// Relies on `rand::random_range`: a draw from the given range, which
/// panics only on an empty range.  Nothing more is assumed of a random
/// value than its bound.
#[verifier::external_body]
pub(crate) fn random_below(n: usize) -> (r: usize)
    requires
        n > 0,
    ensures
        r < n,
{
    rand::random_range(0..n)
}

/// A text word-wrapped to the given width.  A pure function of text
/// and width.
pub uninterp spec fn filled_of(s: Seq<char>, width: int) -> Seq<char>;

/// Relies on `textwrap::fill`, whose result depends on the text and
/// the width alone.
#[verifier::external_body]
pub(crate) fn fill_text(s: &str, width: usize) -> (r: String)
    ensures
        r@ == filled_of(s@, width as int),
{
    textwrap::fill(s, width)
}

} // verus!
