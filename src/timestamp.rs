use chrono::TimeZone;
use chrono::Utc;
use std::fmt::Write;
use vstd::prelude::*;

use crate::error::Error;

verus! {

/// The earliest second that has a UTC calendar date: -262143-01-01T00:00:00Z.
pub const MIN_UTC_SECS: i64 = -8334601228800;

/// The latest second that has a UTC calendar date: 262142-12-31T23:59:59Z.
pub const MAX_UTC_SECS: i64 = 8210266876799;

/// Whether `secs` seconds after the Unix epoch fall within the calendar.
pub open spec fn utc_representable(secs: int) -> bool {
    MIN_UTC_SECS <= secs <= MAX_UTC_SECS
}

/// The first second of the year 0: -0000-01-01T00:00:00Z.
pub const FOUR_DIGIT_YEAR_MIN_SECS: i64 = -62167219200;

/// The last second of the year 9999: 9999-12-31T23:59:59Z.
pub const FOUR_DIGIT_YEAR_MAX_SECS: i64 = 253402300799;

/// Whether the UTC year of `secs` lies between 0 and 9999, where the year is
/// written with four digits and no sign.
pub open spec fn four_digit_year(secs: int) -> bool {
    FOUR_DIGIT_YEAR_MIN_SECS <= secs <= FOUR_DIGIT_YEAR_MAX_SECS
}

/// Whether `t` has the shape `DDDD:DD:DD DD:DD:DD`, each `D` a decimal digit.
pub open spec fn exif_shaped(t: Seq<char>) -> bool {
    &&& t.len() == 19
    &&& forall|i: int|
        0 <= i < 19 ==> if i == 4 || i == 7 || i == 13 || i == 16 {
            #[trigger] t[i] == ':'
        } else if i == 10 {
            t[i] == ' '
        } else {
            '0' <= t[i] <= '9'
        }
}

/// The text that chrono renders for the UTC instant `secs` with the
/// strftime pattern `pattern`.
pub uninterp spec fn utc_formatted(secs: int, pattern: Seq<char>) -> Seq<char>;

/// The strftime pattern of the EXIF date/time convention `YYYY:MM:DD HH:MM:SS`.
pub open spec fn exif_pattern() -> Seq<char> {
    seq!['%', 'Y', ':', '%', 'm', ':', '%', 'd', ' ', '%', 'H', ':', '%', 'M', ':', '%', 'S']
}

/// Relies on chrono's `TimeZone::timestamp_opt` for `Utc`, which yields a
/// single date exactly for the seconds between `DateTime::<Utc>::MIN_UTC`
/// and `DateTime::<Utc>::MAX_UTC`.
#[verifier::external_body]
fn utc_timestamp_exists(secs: i64) -> (r: bool)
    ensures
        r == utc_representable(secs as int),
{
    Utc.timestamp_opt(secs, 0).single().is_some()
}

/// Relies on chrono's `TimeZone::timestamp_opt` for the UTC instant `secs` and
/// on `DateTime::format` for its text under the strftime `pattern`, which
/// depends on the two alone; `None` where chrono reports a formatting error,
/// which it never does for the EXIF pattern: each of its specifiers (`%Y`,
/// `%m`, `%d`, `%H`, `%M`, `%S`) formats without error given a date and a time,
/// zero-padded to two digits, the year to four digits with no sign for the
/// years 0 to 9999.
#[verifier::external_body]
fn utc_format(secs: i64, pattern: &str) -> (r: Option<String>)
    requires
        utc_representable(secs as int),
    ensures
        r matches Some(s) ==> s@ == utc_formatted(secs as int, pattern@),
        pattern@ == exif_pattern() ==> r is Some,
        r matches Some(s) ==> (pattern@ == exif_pattern() && four_digit_year(secs as int) ==> exif_shaped(s@)),
{
    let d = Utc.timestamp_opt(secs, 0).single()?;
    let mut out = String::new();
    write!(out, "{}", d.format(pattern)).ok()?;
    Some(out)
}

/// A point in time, in whole seconds after the Unix epoch (UTC), that has a
/// calendar date.
#[derive(Debug, Clone, Copy, PartialEq, Eq, Structural)]
pub struct Timestamp {
    pub secs: i64,
}

impl Timestamp {
    pub open spec fn wf(&self) -> bool {
        utc_representable(self.secs as int)
    }

    /// The instant `secs` seconds after the epoch, or `None` where it has no
    /// calendar date.
    pub fn from_seconds(secs: i64) -> (r: Option<Timestamp>)
        ensures
            r == timestamp_from(secs),
    {
        if utc_timestamp_exists(secs) {
            Some(Timestamp { secs })
        } else {
            None
        }
    }

    /// The EXIF date/time text of this instant, `YYYY:MM:DD HH:MM:SS` in UTC.
    pub fn exif_text(&self) -> (r: String)
        requires
            self.wf(),
        ensures
            r@ == utc_formatted(self.secs as int, exif_pattern()),
            four_digit_year(self.secs as int) ==> exif_shaped(r@),
    {
        let pattern = "%Y:%m:%d %H:%M:%S";
        proof {
            reveal_strlit("%Y:%m:%d %H:%M:%S");
        }
        assert(pattern@ =~= exif_pattern());
        utc_format(self.secs, pattern).unwrap()
    }
}

/// The instant `secs` seconds after the epoch, where it has a calendar date.
pub open spec fn timestamp_from(secs: i64) -> Option<Timestamp> {
    if utc_representable(secs as int) {
        Some(Timestamp { secs })
    } else {
        None
    }
}

/// The outcome of resolving a photo's time from its creation and taken times.
pub open spec fn resolved(creation: i64, taken: i64) -> Result<Timestamp, Error> {
    match timestamp_from(chosen_seconds(creation, taken)) {
        Some(t) => Ok(t),
        None => Err(Error::TimestampOutOfRange),
    }
}

/// The choice made by `resolve`: the taken time unless it is the "not recorded"
/// sentinel 0, in which case the creation time.
pub open spec fn chosen_seconds(creation: i64, taken: i64) -> i64 {
    if taken == 0 { creation } else { taken }
}

/// Picks a photo's canonical time: `taken` whenever it is non-zero, however
/// implausible, else `creation`; fails where the chosen second has no date.
pub fn resolve(creation: i64, taken: i64) -> (r: Result<Timestamp, Error>)
    ensures
        r == resolved(creation, taken),
        r matches Ok(t) ==> t.wf(),
{
    let secs = if taken == 0 { creation } else { taken };
    match Timestamp::from_seconds(secs) {
        Some(t) => Ok(t),
        None => Err(Error::TimestampOutOfRange),
    }
}

/// Resolving is a function of the two times alone: with no taken time (0) it
/// gives the instant of the creation time, and with any other taken time it
/// gives the instant of the taken time, whatever the creation time; a chosen
/// time without a calendar date is an error either way.
pub proof fn lemma_resolve_determinism(creation: i64, taken: i64)
    ensures
        timestamp_from(creation) matches Some(t) ==> resolved(creation, 0) == Ok::<Timestamp, Error>(t),
        taken != 0 ==> (timestamp_from(taken) matches Some(t) ==> resolved(creation, taken) == Ok::<Timestamp, Error>(t)),
        taken != 0 && timestamp_from(taken) is None
            ==> resolved(creation, taken) == Err::<Timestamp, Error>(Error::TimestampOutOfRange),
{
}

} // verus!
