//! Points in time, as the RFC 3339 text that chrono writes for them.

use vstd::prelude::*;

verus! {

/// What chrono makes of a text: `DateTime::<Utc>::from_str` parses it (a relaxed
/// RFC 3339), and `to_rfc3339` writes the instant back; `None` where it does not parse.
pub uninterp spec fn rfc3339_canonical(text: Seq<char>) -> Option<Seq<char>>;

/// Parses `text` with chrono's `FromStr for DateTime<Utc>` and writes the instant with
/// `DateTime::to_rfc3339`. The contract only names the result; which texts chrono accepts
/// and how it writes them is left unsaid.
#[verifier::external_body]
pub(crate) fn canonical_rfc3339(text: &str) -> (r: Option<String>)
    ensures
        r is Some <==> rfc3339_canonical(text@) is Some,
        r is Some ==> r->0@ == rfc3339_canonical(text@)->0,
{
    text.parse::<chrono::DateTime<chrono::Utc>>().ok().map(|d| d.to_rfc3339())
}

/// chrono's `DateTime::<Utc>::UNIX_EPOCH.to_rfc3339()`.
pub open spec fn unix_epoch_rfc3339() -> Seq<char> {
    "1970-01-01T00:00:00+00:00"@
}

pub fn unix_epoch() -> (s: String)
    ensures
        s@ == unix_epoch_rfc3339(),
{
    String::from_str("1970-01-01T00:00:00+00:00")
}

} // verus!
