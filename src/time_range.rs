//! Time ranges of a search: relative presets anchored at the current instant,
//! or a custom interval, resolved to the lower bound that a search sends.

use vstd::prelude::*;

verus! {

/// Whether chrono has a UTC date-time at this Unix timestamp and sub-second
/// nanosecond count.
pub uninterp spec fn utc_representable(secs: int, nanos: int) -> bool;

/// The text that chrono renders for this UTC date-time under a pattern.
pub uninterp spec fn utc_formatted(secs: int, nanos: int, pattern: Seq<char>) -> Seq<char>;

/// Pattern of a full date and time: `YYYY/MM/DD HH:MM:SS`.
pub const DATE_TIME_PATTERN: &'static str = "%Y/%m/%d %H:%M:%S";

/// Pattern of a date and time to the minute: `YYYY/MM/DD HH:MM`.
pub const DATE_MINUTE_PATTERN: &'static str = "%Y/%m/%d %H:%M";

/// Pattern of a date alone: `YYYY/MM/DD`.
pub const DATE_PATTERN: &'static str = "%Y/%m/%d";

/// Pattern of a time of day alone: `HH:MM:SS`.
pub const TIME_PATTERN: &'static str = "%H:%M:%S";

pub const SECONDS_PER_MINUTE: i64 = 60;

pub const SECONDS_PER_DAY: i64 = 86_400;

pub const NANOS_PER_SECOND: i128 = 1_000_000_000;

/// The longest span of a preset: one year of 365 days.
pub const LONGEST_SPAN: i64 = 365 * 86_400;

/// The earliest clock reading from which every preset can be resolved
/// without leaving the range of `i64`.
pub const EARLIEST_NOW: i64 = i64::MIN + LONGEST_SPAN;

/// The patterns that this library hands to chrono.
pub open spec fn known_pattern(p: Seq<char>) -> bool {
    ||| p == DATE_TIME_PATTERN@
    ||| p == DATE_MINUTE_PATTERN@
    ||| p == DATE_PATTERN@
    ||| p == TIME_PATTERN@
}

/// Relies on chrono's `DateTime::from_timestamp`: `Some` exactly for the
/// timestamps that chrono can represent.
#[verifier::external_body]
fn chrono_accepts(secs: i64, nanos: u32) -> (r: bool)
    ensures
        r == utc_representable(secs as int, nanos as int),
{
    chrono::DateTime::from_timestamp(secs, nanos).is_some()
}

/// Relies on chrono's `DateTime::format` on the date-time that
/// `DateTime::from_timestamp` gives; `None` where it gives none. The pattern
/// is one of the valid patterns above, so rendering does not fail.
#[verifier::external_body]
fn chrono_format(secs: i64, nanos: u32, pattern: &str) -> (r: Option<String>)
    requires
        known_pattern(pattern@),
    ensures
        r is Some <==> utc_representable(secs as int, nanos as int),
        r matches Some(t) ==> t@ == utc_formatted(secs as int, nanos as int, pattern@),
{
    match chrono::DateTime::from_timestamp(secs, nanos) {
        Some(t) => Some(t.format(pattern).to_string()),
        None => None,
    }
}

/// An instant in UTC: whole seconds since the Unix epoch and the nanoseconds
/// past that second.
#[derive(Clone, Copy, Debug, PartialEq, Eq, Structural)]
pub struct UtcInstant {
    pub secs: i64,
    pub nanos: u32,
}

impl UtcInstant {
    /// The instant is one that chrono can represent.
    pub open spec fn wf(&self) -> bool {
        utc_representable(self.secs as int, self.nanos as int)
    }

    /// The instant at a timestamp, where chrono can represent it.
    pub fn from_timestamp(secs: i64, nanos: u32) -> (r: Option<UtcInstant>)
        ensures
            r is Some <==> utc_representable(secs as int, nanos as int),
            r matches Some(t) ==> t.secs == secs && t.nanos == nanos,
    {
        if chrono_accepts(secs, nanos) {
            Some(UtcInstant { secs, nanos })
        } else {
            None
        }
    }

    /// The instant as `YYYY/MM/DD HH:MM:SS`.
    pub fn format_date_time(&self) -> (r: String)
        requires
            self.wf(),
        ensures
            r@ == utc_formatted(self.secs as int, self.nanos as int, DATE_TIME_PATTERN@),
    {
        match chrono_format(self.secs, self.nanos, DATE_TIME_PATTERN) {
            Some(t) => t,
            None => String::new(),
        }
    }

}

/// A time range selected for a search.
#[derive(Clone, Copy, Debug, PartialEq, Eq, Structural)]
pub enum DateRange {
    Last15Min,
    Last30Min,
    Last1Hour,
    Last7Days,
    Last30Days,
    Last3Months,
    LastYear,
    Custom { start: UtcInstant, end: UtcInstant },
}

/// Renders a Unix timestamp as `YYYY/MM/DD HH:MM`; `None` where chrono has no
/// date-time at that timestamp.
pub fn format_utc(timestamp: i64) -> (r: Option<String>)
    ensures
        r is Some <==> utc_representable(timestamp as int, 0),
        r matches Some(t) ==> t@ == utc_formatted(timestamp as int, 0, DATE_MINUTE_PATTERN@),
{
    chrono_format(timestamp, 0, DATE_MINUTE_PATTERN)
}

/// The date and the time of day of an instant given in nanoseconds since the
/// epoch, as `YYYY/MM/DD` and `HH:MM:SS`; `None` where chrono has no
/// date-time there.
pub fn date_parts(timestamp_nanos: i64) -> (r: Option<(String, String)>)
    ensures
        ({
            let secs = timestamp_nanos as int / NANOS_PER_SECOND as int;
            let nanos = timestamp_nanos as int % NANOS_PER_SECOND as int;
            &&& r is Some <==> utc_representable(secs, nanos)
            &&& r matches Some(p) ==> p.0@ == utc_formatted(secs, nanos, DATE_PATTERN@) && p.1@
                == utc_formatted(secs, nanos, TIME_PATTERN@)
        }),
{
    let n: i128 = timestamp_nanos as i128;
    let mut secs: i128 = n / NANOS_PER_SECOND;
    let mut nanos: i128 = n % NANOS_PER_SECOND;
    if nanos < 0 {
        secs = secs - 1;
        nanos = nanos + NANOS_PER_SECOND;
    }
    assert(secs == n as int / NANOS_PER_SECOND as int && nanos == n as int
        % NANOS_PER_SECOND as int);
    let date = chrono_format(secs as i64, nanos as u32, DATE_PATTERN);
    let time = chrono_format(secs as i64, nanos as u32, TIME_PATTERN);
    match (date, time) {
        (Some(d), Some(t)) => Some((d, t)),
        _ => None,
    }
}

impl DateRange {
    pub open spec fn wf(&self) -> bool {
        match self {
            DateRange::Custom { start, end } => start.wf() && end.wf(),
            _ => true,
        }
    }

    pub open spec fn is_preset(&self) -> bool {
        !(self is Custom)
    }

    /// The span, in seconds, that a preset reaches back from the current
    /// instant.
    pub open spec fn span_seconds(&self) -> int {
        match self {
            DateRange::Last15Min => 15 * SECONDS_PER_MINUTE,
            DateRange::Last30Min => 30 * SECONDS_PER_MINUTE,
            DateRange::Last1Hour => 60 * SECONDS_PER_MINUTE,
            DateRange::Last7Days => 7 * SECONDS_PER_DAY,
            DateRange::Last30Days => 30 * SECONDS_PER_DAY,
            DateRange::Last3Months => 90 * SECONDS_PER_DAY,
            DateRange::LastYear => 365 * SECONDS_PER_DAY,
            DateRange::Custom { .. } => 0,
        }
    }

    /// The lower bound that a search sends, in Unix seconds: for a preset,
    /// `now` less the preset's span; for a custom range, its start. The end
    /// of a custom range is not part of it.
    pub open spec fn start_bound(&self, now: int) -> int {
        match self {
            DateRange::Custom { start, end: _ } => start.secs as int,
            _ => now - self.span_seconds(),
        }
    }

    /// The lower bound at clock reading `now`, where it fits in `i64`: a
    /// preset needs `now` at least `EARLIEST_NOW`; a custom range always
    /// resolves.
    pub open spec fn resolved(&self, now: int) -> Option<int> {
        if self.is_preset() && now < EARLIEST_NOW {
            None
        } else {
            Some(self.start_bound(now))
        }
    }

    /// The fixed label of each preset; `Custom` for a custom range.
    pub open spec fn name(&self) -> Seq<char> {
        match self {
            DateRange::Last15Min => "Last 15 min"@,
            DateRange::Last30Min => "Last 30 min"@,
            DateRange::Last1Hour => "Last 1 hour"@,
            DateRange::Last7Days => "Last 7 days"@,
            DateRange::Last30Days => "Last 30 days"@,
            DateRange::Last3Months => "Last 3 months"@,
            DateRange::LastYear => "Last year"@,
            DateRange::Custom { .. } => "Custom"@,
        }
    }

    /// What the range shows: a preset's label, or `<start> - <end>` with both
    /// instants as `YYYY/MM/DD HH:MM:SS`.
    pub open spec fn label_text(&self) -> Seq<char> {
        match self {
            DateRange::Custom { start, end } => utc_formatted(
                start.secs as int,
                start.nanos as int,
                DATE_TIME_PATTERN@,
            ) + " - "@ + utc_formatted(end.secs as int, end.nanos as int, DATE_TIME_PATTERN@),
            _ => self.name(),
        }
    }

    pub fn as_str(&self) -> (r: &'static str)
        ensures
            r@ == self.name(),
    {
        match self {
            DateRange::Last15Min => "Last 15 min",
            DateRange::Last30Min => "Last 30 min",
            DateRange::Last1Hour => "Last 1 hour",
            DateRange::Last7Days => "Last 7 days",
            DateRange::Last30Days => "Last 30 days",
            DateRange::Last3Months => "Last 3 months",
            DateRange::LastYear => "Last year",
            DateRange::Custom { .. } => "Custom",
        }
    }

    /// The text that the range selector shows for this range.
    pub fn label(&self) -> (r: String)
        requires
            self.wf(),
        ensures
            r@ == self.label_text(),
    {
        match self {
            DateRange::Custom { start, end } => {
                let mut s = start.format_date_time();
                s.append(" - ");
                let e = end.format_date_time();
                s.append(e.as_str());
                s
            },
            _ => String::from_str(self.as_str()),
        }
    }

    /// The lower bound of a search run at clock reading `now` (Unix seconds).
    pub fn start_timestamp(&self, now: i64) -> (r: i64)
        requires
            self.is_preset() ==> now >= EARLIEST_NOW,
        ensures
            r == self.start_bound(now as int),
    {
        match self {
            DateRange::Last15Min => now - 15 * SECONDS_PER_MINUTE,
            DateRange::Last30Min => now - 30 * SECONDS_PER_MINUTE,
            DateRange::Last1Hour => now - 60 * SECONDS_PER_MINUTE,
            DateRange::Last7Days => now - 7 * SECONDS_PER_DAY,
            DateRange::Last30Days => now - 30 * SECONDS_PER_DAY,
            DateRange::Last3Months => now - 90 * SECONDS_PER_DAY,
            DateRange::LastYear => now - 365 * SECONDS_PER_DAY,
            DateRange::Custom { start, end: _ } => start.secs,
        }
    }

    /// The lower bound of a search run at clock reading `now` (Unix
    /// seconds); `None` only for a preset with `now` before `EARLIEST_NOW`.
    pub fn resolve_at(&self, now: i64) -> (r: Option<i64>)
        ensures
            r == match self.resolved(now as int) {
                Some(v) => Some(v as i64),
                None => None::<i64>,
            },
            r is None ==> self.is_preset(),
    {
        match self {
            DateRange::Custom { start, end: _ } => Some(start.secs),
            _ => if now < EARLIEST_NOW {
                None
            } else {
                Some(self.start_timestamp(now))
            },
        }
    }
}

/// Moving the clock forward by a preset's own span moves the resolved lower
/// bound to where the clock stood before.
pub proof fn lemma_preset_shift(range: DateRange, now: int)
    requires
        range.is_preset(),
        EARLIEST_NOW <= now,
        now + range.span_seconds() <= i64::MAX,
    ensures
        range.resolved(now + range.span_seconds()) == Some(now),
{
}

/// The lower bound of a preset follows the clock: it lags the reading by the
/// preset's span, which never grows; a later reading gives a later bound, so
/// two readings at different times resolve to different values.
pub proof fn lemma_preset_monotonic(range: DateRange, now1: int, now2: int)
    requires
        range.is_preset(),
        EARLIEST_NOW <= now1 <= now2,
    ensures
        range.resolved(now1) matches Some(b1) && range.resolved(now2) matches Some(b2) && {
            &&& b1 <= b2
            &&& now1 < now2 ==> b1 < b2
            &&& now2 - b2 == now1 - b1
            &&& now1 - b1 == range.span_seconds() > 0
        },
{
}

} // verus!
