//! The library's trusted boundary: the outside types it carries and the
//! outside functions it calls, each with the contract the library relies on.

use crate::timestamp::Timestamp;
use vstd::prelude::*;

verus! {

/// `uuid::Uuid`, carried through the library as an opaque identifier.
#[verifier::external_type_specification]
#[verifier::external_body]
pub struct ExUuid(uuid::Uuid);


/// Reads the system clock (`std::time::SystemTime::now`) and converts the
/// reading with `chrono`'s `From<SystemTime> for DateTime<Utc>`, then hands
/// it back as `timestamp` and `timestamp_subsec_nanos` of that `DateTime`.
/// Unlike `Utc::now`, the conversion also takes instants before the Unix
/// epoch without panicking. Its one `unwrap` is on `Utc.timestamp_opt`,
/// which fails only outside chrono's range (about 262 000 years either side
/// of the epoch); the real-time clock of the platforms served (Linux keeps
/// it as a signed 64-bit count of nanoseconds, years 1677 to 2262) never
/// reads there. Claimed: the nanoseconds are below one second, as the
/// conversion builds them from a `Duration`'s sub-second part. Nothing more
/// is claimed of the instant: it rests on the clock.
#[verifier::external_body]
pub fn utc_now() -> (r: Timestamp)
    ensures
        r.nanos < 1_000_000_000,
{
    let now = chrono::DateTime::<chrono::Utc>::from(std::time::SystemTime::now());
    Timestamp { secs: now.timestamp(), nanos: now.timestamp_subsec_nanos() }
}

/// The scheme that `url::Url::parse` finds in `input` (as `Url::scheme`
/// returns it), or `None` where `Url::parse` refuses `input`. What the
/// WHATWG URL parser accepts takes pages to state; this names it.
pub uninterp spec fn url_scheme(input: Seq<char>) -> Option<Seq<char>>;

/// Calls `url::Url::parse` on `input` and, where it succeeds, `Url::scheme`
/// on the result. Claimed: the answer is `url_scheme` of the input.
#[verifier::external_body]
pub fn parse_url_scheme(input: &str) -> (r: Option<String>)
    ensures
        match r {
            Some(scheme) => url_scheme(input@) == Some(scheme@),
            None => url_scheme(input@) is None,
        },
{
    url::Url::parse(input).ok().map(|u| u.scheme().to_string())
}

/// The Unicode lowercase mapping of `str::to_lowercase`.
pub uninterp spec fn lowercase(s: Seq<char>) -> Seq<char>;

/// The ASCII lowercase of one character: `A`..`Z` become `a`..`z`,
/// every other character stays.
pub open spec fn ascii_lower(c: char) -> char {
    if 'A' <= c && c <= 'Z' {
        ((c as u32) + 32) as char
    } else {
        c
    }
}

/// Whether every character of `s` is ASCII.
pub open spec fn all_ascii(s: Seq<char>) -> bool {
    forall|i: int| 0 <= i < s.len() ==> (#[trigger] s[i] as u32) < 128
}

/// Calls `str::to_lowercase`. Claimed: the answer is `lowercase` of the
/// input, and on ASCII input it lowercases `A`..`Z` and keeps every other
/// character, as the Unicode case mapping does for ASCII.
#[verifier::external_body]
pub fn to_lowercase(s: &str) -> (r: String)
    ensures
        r@ == lowercase(s@),
        all_ascii(s@) ==> r@ == s@.map_values(|c: char| ascii_lower(c)),
{
    s.to_lowercase()
}

} // verus!
