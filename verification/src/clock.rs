//! Calendar rendering of epoch timestamps.

use vstd::prelude::*;

verus! {

/// The text `YYYY-MM-DD HH:MM:SS` of the instant `secs` seconds after the
/// Unix epoch, as read on a clock that runs `offset` seconds ahead of UTC, or
/// `None` where `chrono` has no date for the instant or no such clock.
pub uninterp spec fn civil_text(secs: int, offset: int) -> Option<Seq<char>>;

/// Formats an instant with `chrono`: `DateTime::from_timestamp`, moved by
/// `DateTime::with_timezone` to the zone that `FixedOffset::east_opt` makes of
/// `offset`, then `DateTime::format` with `%Y-%m-%d %H:%M:%S`.
///
/// Trusted: the result is a function of the two arguments alone, named
/// [`civil_text`]; it is `None` exactly where one of the two constructors
/// gives `None`.
#[verifier::external_body]
pub(crate) fn format_instant(secs: i64, offset: i32) -> (r: Option<String>)
    ensures
        match r {
            Some(text) => civil_text(secs as int, offset as int) == Some(text@),
            None => civil_text(secs as int, offset as int) is None,
        },
{
    let instant = chrono::DateTime::from_timestamp(secs, 0)?;
    let zone = chrono::FixedOffset::east_opt(offset)?;
    Some(instant.with_timezone(&zone).format("%Y-%m-%d %H:%M:%S").to_string())
}

} // verus!
