//! Rendering of Unix timestamps as RFC 3339 text.
//!
//! Two renderings are in use, and they differ in how they write UTC: search
//! hits carry the one of `mail_parser` (`...Z`), message details the one of
//! `chrono` (`...+00:00`).

use vstd::prelude::*;

verus! {

/// The RFC 3339 text that `mail_parser` writes for a Unix timestamp.
pub uninterp spec fn mail_rfc3339(secs: i64) -> Seq<char>;

/// The RFC 3339 text that `chrono` writes for a Unix timestamp, or nothing
/// where the timestamp is outside the range of dates that `chrono` holds.
pub uninterp spec fn chrono_rfc3339(secs: i64) -> Option<Seq<char>>;

/// `mail_parser::DateTime::from_timestamp`, then `to_rfc3339`. Trusted: the
/// text is a function of the timestamp alone. Neither call panics.
#[verifier::external_body]
fn mail_parser_rfc3339(secs: i64) -> (text: String)
    ensures
        text@ == mail_rfc3339(secs),
{
    mail_parser::DateTime::from_timestamp(secs).to_rfc3339()
}

/// `chrono::DateTime::from_timestamp` with no nanoseconds, then
/// `to_rfc3339`. Trusted: the outcome is a function of the timestamp alone;
/// `None` is what `from_timestamp` gives for a timestamp out of range.
#[verifier::external_body]
fn chrono_utc_rfc3339(secs: i64) -> (text: Option<String>)
    ensures
        text matches Some(t) ==> chrono_rfc3339(secs) == Some(t@),
        text is None ==> chrono_rfc3339(secs) is None,
{
    chrono::DateTime::from_timestamp(secs, 0).map(|d| d.to_rfc3339())
}

/// The date of a search hit as text.
pub fn search_hit_date(secs: i64) -> (text: String)
    ensures
        text@ == mail_rfc3339(secs),
{
    mail_parser_rfc3339(secs)
}

/// The date of a message as text, or `None` where the timestamp is outside
/// the range of representable dates.
pub fn message_date(secs: i64) -> (text: Option<String>)
    ensures
        text matches Some(t) ==> chrono_rfc3339(secs) == Some(t@),
        text is None ==> chrono_rfc3339(secs) is None,
{
    chrono_utc_rfc3339(secs)
}

} // verus!
