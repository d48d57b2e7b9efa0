//! Dates as the front end shows them: `YYYY-MM-DD HH:MM` in UTC.
use vstd::prelude::*;

verus! {

/// The text `chrono` writes for the UTC time `secs` seconds after the UNIX
/// epoch with the format string `pattern`.
pub uninterp spec fn formatted_time(secs: i64, pattern: Seq<char>) -> Seq<char>;

/// The format the front end shows times with: year, month, day, hour and
/// minute.
pub open spec fn minute_pattern() -> Seq<char> {
    "%Y-%m-%d %H:%M"@
}

/// The text shown for the UTC time `secs` seconds after the UNIX epoch.
pub open spec fn minute_text(secs: i64) -> Seq<char> {
    formatted_time(secs, minute_pattern())
}

/// The seconds since the UNIX epoch that `chrono` can turn into a date: from
/// January 1 of 262144 BCE to the last second of December 31, 262142 CE.
pub open spec fn datetime_in_range(secs: int) -> bool {
    -8_334_601_228_800 <= secs <= 8_210_266_876_799
}

/// Formats the UTC time `secs` seconds after the UNIX epoch with `chrono`
/// (`NaiveDateTime::from_timestamp(secs, 0)` as a `DateTime<Utc>`, formatted
/// with `pattern`). `chrono` panics outside `datetime_in_range`, and writing
/// out a pattern with a specifier it does not know panics too, so only the
/// front end's own pattern is admitted.
/// Trusted: the result is `formatted_time(secs, pattern)`; what that text is,
/// is not stated.
#[verifier::external_body]
#[allow(deprecated)]
pub(crate) fn format_time(secs: i64, pattern: &str) -> (s: String)
    requires
        datetime_in_range(secs as int),
        pattern@ == minute_pattern(),
    ensures
        s@ == formatted_time(secs, pattern@),
{
    let naive = chrono::NaiveDateTime::from_timestamp(secs, 0);
    let dt: chrono::DateTime<chrono::Utc> = chrono::DateTime::from_utc(naive, chrono::Utc);
    dt.format(pattern).to_string()
}

/// Milliseconds divided by 1000, rounded toward zero.
pub open spec fn whole_seconds(ms: i64) -> int {
    if ms >= 0 {
        ms / 1000
    } else {
        -((-ms) / 1000)
    }
}

/// The seconds shown for a time are its milliseconds divided by 1000 and
/// rounded toward zero: what is dropped is less than a second and has the
/// sign of the time.
pub proof fn lemma_whole_seconds_rounds_toward_zero(ms: i64)
    ensures
        ms >= 0 ==> 0 <= ms - 1000 * whole_seconds(ms) < 1000,
        ms < 0 ==> -1000 < ms - 1000 * whole_seconds(ms) <= 0,
{
}

/// A time in milliseconds that can be shown.
pub open spec fn displayable_millis(ms: i64) -> bool {
    datetime_in_range(whole_seconds(ms))
}

/// Whether the time `ms` (milliseconds) can be shown.
pub fn is_displayable(ms: i64) -> (b: bool)
    ensures
        b == displayable_millis(ms),
{
    let secs: i64 = ms / 1000;
    -8_334_601_228_800 <= secs && secs <= 8_210_266_876_799
}

/// Shows the time `ms` milliseconds after the UNIX epoch, to the minute.
pub fn display_time(ms: i64) -> (s: String)
    requires
        displayable_millis(ms),
    ensures
        s@ == minute_text(whole_seconds(ms) as i64),
{
    let secs: i64 = ms / 1000;
    format_time(secs, "%Y-%m-%d %H:%M")
}

} // verus!
