//! Points in time, and when a paste with a given time to live expires.

use vstd::prelude::*;
use crate::errors::KvError;

verus! {

/// The shortest time to live, in seconds, that the store takes.
pub const MIN_TTL: u32 = 60;

/// Seconds since the epoch of the last instant that can be written down:
/// 23:59:59 on 31 December of the year 262142.
pub const MAX_SECS: i64 = 8_210_266_876_799;

/// Seconds since the epoch of the first instant that can be written down:
/// midnight on 1 January of the year -262143.
pub const MIN_SECS: i64 = -8_334_601_228_800;

/// Seconds since the epoch of the first instant of the year 0.
pub const FIRST_HEADER_SECS: i64 = -62_167_219_200;

/// Seconds since the epoch of the last instant of the year 9999.
pub const LAST_HEADER_SECS: i64 = 253_402_300_799;

/// An instant in UTC: whole seconds since 1970-01-01 00:00:00, and the
/// nanoseconds into that second.
#[derive(Clone, Copy, Debug, PartialEq, Eq, Structural)]
pub struct Timestamp {
    pub secs: i64,
    pub nanos: u32,
}

impl Timestamp {
    /// Whether this is an instant of the calendar: within its range, with
    /// less than a second's worth of nanoseconds. The last second of a
    /// minute may be counted twice: an instant in its second count has a
    /// second's worth of nanoseconds more.
    pub open spec fn is_valid(&self) -> bool {
        &&& MIN_SECS <= self.secs <= MAX_SECS
        &&& (self.nanos < 1_000_000_000 || (self.nanos < 2_000_000_000 && self.secs % 60 == 59))
    }

    /// Whether the instant lies in the second count of a second that is
    /// counted twice.
    pub open spec fn is_counted_twice(&self) -> bool {
        self.nanos >= 1_000_000_000
    }

    /// Whether the instant lies in the years 0 to 9999, which is what a
    /// date in a header can say.
    pub open spec fn fits_header(&self) -> bool {
        FIRST_HEADER_SECS <= self.secs <= LAST_HEADER_SECS
    }

    /// Whether this instant is later than `other`.
    pub open spec fn is_after(&self, other: Timestamp) -> bool {
        self.secs > other.secs || (self.secs == other.secs && self.nanos > other.nanos)
    }

    /// This instant moved `seconds` into the future, unless that leaves the
    /// calendar's range. Moving by no seconds changes nothing. Moving on from
    /// the second count of a second that is counted twice goes on from its
    /// first count.
    pub open spec fn plus_seconds(&self, seconds: u32) -> Option<Timestamp> {
        if seconds == 0 {
            Some(*self)
        } else if self.secs + seconds <= MAX_SECS {
            Some(
                Timestamp {
                    secs: (self.secs + seconds) as i64,
                    nanos: if self.is_counted_twice() {
                        (self.nanos - 1_000_000_000) as u32
                    } else {
                        self.nanos
                    },
                },
            )
        } else {
            None
        }
    }

    /// The instant with the given parts, if there is one.
    pub fn new(secs: i64, nanos: u32) -> (r: Option<Timestamp>)
        ensures
            r == (if (Timestamp { secs, nanos }).is_valid() {
                Some(Timestamp { secs, nanos })
            } else {
                None
            }),
    {
        if MIN_SECS <= secs && secs <= MAX_SECS {
            // The calendar begins on a full minute.
            let in_minute = (secs - MIN_SECS) % 60;
            if nanos < 1_000_000_000 || (nanos < 2_000_000_000 && in_minute == 59) {
                Some(Timestamp { secs, nanos })
            } else {
                None
            }
        } else {
            None
        }
    }

    /// The current instant, by the system's clock.
    pub fn now() -> (now: Timestamp)
        ensures
            now.is_valid(),
    {
        clock_now()
    }

    /// This instant moved `seconds` into the future; `None` where the
    /// calendar ends before that.
    pub fn checked_add_seconds(&self, seconds: u32) -> (r: Option<Timestamp>)
        requires
            self.is_valid(),
        ensures
            r == self.plus_seconds(seconds),
            r matches Some(t) ==> t.is_valid(),
    {
        add_seconds(*self, seconds)
    }

    /// The instant as a page shows it, such as `2015-05-15 00:00:00 UTC`.
    pub fn to_text(&self) -> (text: String)
        requires
            self.is_valid(),
        ensures
            text@ == display_text(self.secs, self.nanos),
    {
        format_display(*self)
    }

    /// The instant as a header carries it, such as
    /// `Fri, 15 May 2015 00:00:00 +0000`.
    pub fn to_rfc2822(&self) -> (text: String)
        requires
            self.is_valid(),
            self.fits_header(),
        ensures
            text@ == rfc2822_text(self.secs, self.nanos),
    {
        format_rfc2822(*self)
    }

    /// The instant as a stored record carries it, such as
    /// `2015-05-15T00:00:00Z`.
    pub fn to_rfc3339(&self) -> (text: String)
        requires
            self.is_valid(),
        ensures
            text@ == rfc3339_text(self.secs, self.nanos),
    {
        format_rfc3339(*self)
    }

    /// The instant that a stored record's date and time stand for.
    pub open spec fn parsed(text: Seq<char>) -> Option<Timestamp> {
        match rfc3339_instant(text) {
            Some((secs, nanos)) => if (Timestamp { secs, nanos }).is_valid() {
                Some(Timestamp { secs, nanos })
            } else {
                None
            },
            None => None,
        }
    }

    /// Reads the date and time of a stored record.
    pub fn parse_rfc3339(text: &str) -> (r: Option<Timestamp>)
        ensures
            r == Timestamp::parsed(text@),
            r matches Some(t) ==> t.is_valid(),
    {
        match parse_instant(text) {
            Some((secs, nanos)) => Timestamp::new(secs, nanos),
            None => None,
        }
    }

    /// Whether the instant lies in the years 0 to 9999.
    pub fn in_header_range(&self) -> (r: bool)
        ensures
            r == self.fits_header(),
    {
        FIRST_HEADER_SECS <= self.secs && self.secs <= LAST_HEADER_SECS
    }
}

/// When a paste created at `now` with the given time to live expires.
pub open spec fn expiration_of(ttl_seconds: Option<u32>, now: Timestamp) -> Result<
    Option<Timestamp>,
    KvError,
> {
    match ttl_seconds {
        None => Ok(None),
        Some(ttl) => if ttl < MIN_TTL {
            Err(KvError::UnsupportedTtl(ttl))
        } else {
            Ok(now.plus_seconds(ttl))
        },
    }
}

/// Turns a requested time to live into the instant of expiry. Without a time
/// to live the paste never expires. A time to live below one minute is
/// refused. One that would carry the expiry past the end of the calendar
/// gives a paste that never expires.
pub fn compute_expiration(ttl_seconds: Option<u32>, now: Timestamp) -> (r: Result<
    Option<Timestamp>,
    KvError,
>)
    requires
        now.is_valid(),
    ensures
        r == expiration_of(ttl_seconds, now),
        r matches Ok(Some(exp)) ==> exp.is_valid() && exp.is_after(now),
{
    match ttl_seconds {
        None => Ok(None),
        Some(ttl) => {
            if ttl < MIN_TTL {
                Err(KvError::UnsupportedTtl(ttl))
            } else {
                Ok(now.checked_add_seconds(ttl))
            }
        },
    }
}

/// The instant that `chrono::Utc::now` reads from the system's clock. Every
/// instant it hands out lies within the calendar's range and has less than a
/// second's worth of nanoseconds.
#[verifier::external_body]
fn clock_now() -> (now: Timestamp)
    ensures
        now.is_valid(),
{
    let t = chrono::Utc::now();
    Timestamp { secs: t.timestamp(), nanos: t.timestamp_subsec_nanos() }
}

/// `chrono::DateTime::checked_add_signed` on an instant and a number of whole
/// seconds. No seconds leave the instant as it is. Else the seconds are added
/// and the nanoseconds kept, but for a second's worth of them that marks the
/// second count of a second counted twice, which is dropped; and the result
/// is `None` exactly where the sum lies after the last instant of the
/// calendar.
#[verifier::external_body]
fn add_seconds(t: Timestamp, seconds: u32) -> (r: Option<Timestamp>)
    requires
        t.is_valid(),
    ensures
        r == t.plus_seconds(seconds),
{
    let start = chrono::DateTime::from_timestamp(t.secs, t.nanos)?;
    let end = start.checked_add_signed(chrono::TimeDelta::seconds(seconds.into()))?;
    Some(Timestamp { secs: end.timestamp(), nanos: end.timestamp_subsec_nanos() })
}

/// What `Display` of `chrono::DateTime<Utc>` writes for the instant with the
/// given seconds and nanoseconds.
pub uninterp spec fn display_text(secs: i64, nanos: u32) -> Seq<char>;

/// What `chrono::DateTime::to_rfc2822` writes for the instant with the given
/// seconds and nanoseconds.
pub uninterp spec fn rfc2822_text(secs: i64, nanos: u32) -> Seq<char>;

/// What `chrono::DateTime::to_rfc3339_opts` writes for the instant with the
/// given seconds and nanoseconds, with as many digits of the second's
/// fraction as it needs and `Z` for the offset.
pub uninterp spec fn rfc3339_text(secs: i64, nanos: u32) -> Seq<char>;

/// The seconds and nanoseconds of the instant that `FromStr` of
/// `chrono::DateTime<Utc>` reads from a text, if it reads one.
pub uninterp spec fn rfc3339_instant(text: Seq<char>) -> Option<(i64, u32)>;

/// Writes an instant with `Display` of `chrono::DateTime<Utc>`.
#[verifier::external_body]
fn format_display(t: Timestamp) -> (text: String)
    requires
        t.is_valid(),
    ensures
        text@ == display_text(t.secs, t.nanos),
{
    chrono::DateTime::from_timestamp(t.secs, t.nanos).unwrap().to_string()
}

/// Writes an instant with `chrono::DateTime::to_rfc2822`, which panics on a
/// year outside 0 to 9999.
#[verifier::external_body]
fn format_rfc2822(t: Timestamp) -> (text: String)
    requires
        t.is_valid(),
        t.fits_header(),
    ensures
        text@ == rfc2822_text(t.secs, t.nanos),
{
    chrono::DateTime::from_timestamp(t.secs, t.nanos).unwrap().to_rfc2822()
}

/// Writes an instant with `chrono::DateTime::to_rfc3339_opts`, asking for
/// automatic precision and `Z`.
#[verifier::external_body]
fn format_rfc3339(t: Timestamp) -> (text: String)
    requires
        t.is_valid(),
    ensures
        text@ == rfc3339_text(t.secs, t.nanos),
{
    chrono::DateTime::from_timestamp(t.secs, t.nanos).unwrap().to_rfc3339_opts(
        chrono::SecondsFormat::AutoSi,
        true,
    )
}

/// Reads an instant with `FromStr` of `chrono::DateTime<Utc>` and hands out
/// its seconds and nanoseconds.
#[verifier::external_body]
fn parse_instant(text: &str) -> (r: Option<(i64, u32)>)
    ensures
        r == rfc3339_instant(text@),
{
    text.parse::<chrono::DateTime<chrono::Utc>>().ok().map(
        |t| (t.timestamp(), t.timestamp_subsec_nanos()),
    )
}

} // verus!
