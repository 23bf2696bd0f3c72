//! Instants and durations as counts of milliseconds.
//!
//! An [`Instant`] counts the milliseconds since 1970-01-01 00:00:00 UTC,
//! and carries the offset of the clock it is shown on; the calendar fields
//! of an instant come from chrono.

use chrono::Datelike;
use chrono::Timelike;
use vstd::prelude::*;

use crate::text::padded_text;
use crate::text::dec_text;
use crate::text::push_dec;
use crate::text::push_padded;

verus! {

/// The largest distance from the epoch, in milliseconds, that an
/// [`Instant`] can hold: 10^15 ms, about 31,700 years, well inside
/// chrono's range of years (up to 262,142, about 8.27 * 10^15 ms).
pub const MAX_INSTANT_MILLIS: i64 = 1_000_000_000_000_000;

/// The milliseconds in a day: a clock's offset from UTC is less than that.
pub const DAY_MILLIS: i64 = 86_400_000;

/// The calendar fields of an instant.
#[derive(Debug, Clone, Copy, PartialEq, Eq, Structural)]
pub struct CivilTime {
    pub year: i32,
    pub month: u32,
    pub day: u32,
    pub hour: u32,
    pub minute: u32,
    pub second: u32,
}

/// The calendar fields that chrono gives to a count of milliseconds since
/// the epoch.
pub uninterp spec fn civil_of(ms: int) -> CivilTime;

/// Relies on chrono's `DateTime::<Utc>::from_timestamp_millis` and on the
/// `Datelike` and `Timelike` getters of its result: the calendar fields of
/// a count of milliseconds since the epoch, each in its documented range;
/// `None` only outside chrono's range of years (about 262 thousand years
/// either side of the epoch).
#[verifier::external_body]
fn civil_from_millis(ms: i64) -> (r: Option<CivilTime>)
    ensures
        r matches Some(c) ==> c == civil_of(ms as int),
        r matches Some(c) ==> 1 <= c.month <= 12 && 1 <= c.day <= 31 && c.hour < 24 && c.minute
            < 60 && c.second < 60,
        -MAX_INSTANT_MILLIS - DAY_MILLIS <= ms <= MAX_INSTANT_MILLIS + DAY_MILLIS ==> r is Some,
{
    match chrono::DateTime::from_timestamp_millis(ms) {
        Some(d) => Some(
            CivilTime {
                year: d.year(),
                month: d.month(),
                day: d.day(),
                hour: d.hour(),
                minute: d.minute(),
                second: d.second(),
            },
        ),
        None => None,
    }
}

/// The text of a year: four digits within 0..=9999, a sign and the digits
/// outside.
pub open spec fn year_text(y: int) -> Seq<char> {
    if 0 <= y <= 9999 {
        padded_text(y as nat, 4)
    } else if y > 9999 {
        seq!['+'] + dec_text(y as nat)
    } else {
        seq!['-'] + padded_text((-y) as nat, 4)
    }
}

/// `YYYY-MM-DD HH:MM:SS`.
pub open spec fn clock_text(c: CivilTime) -> Seq<char> {
    year_text(c.year as int) + seq!['-'] + padded_text(c.month as nat, 2) + seq!['-']
        + padded_text(c.day as nat, 2) + seq![' '] + padded_text(c.hour as nat, 2) + seq![':']
        + padded_text(c.minute as nat, 2) + seq![':'] + padded_text(c.second as nat, 2)
}

/// Writes calendar fields as `YYYY-MM-DD HH:MM:SS`.
pub fn clock_string(c: &CivilTime) -> (r: String)
    ensures
        r@ == clock_text(*c),
{
    proof {
        reveal_strlit("-");
        reveal_strlit("+");
        reveal_strlit(" ");
        reveal_strlit(":");
    }
    let mut s = String::new();
    if c.year >= 0 && c.year <= 9999 {
        push_padded(&mut s, c.year as u64, 4);
    } else if c.year > 9999 {
        s.append("+");
        push_dec(&mut s, c.year as u64);
    } else {
        s.append("-");
        push_padded(&mut s, (0i64 - c.year as i64) as u64, 4);
    }
    s.append("-");
    push_padded(&mut s, c.month as u64, 2);
    s.append("-");
    push_padded(&mut s, c.day as u64, 2);
    s.append(" ");
    push_padded(&mut s, c.hour as u64, 2);
    s.append(":");
    push_padded(&mut s, c.minute as u64, 2);
    s.append(":");
    push_padded(&mut s, c.second as u64, 2);
    assert(s@ =~= clock_text(*c));
    s
}

/// A span of time, in milliseconds; negative when it runs backwards.
#[derive(Debug, Clone, Copy, PartialEq, Eq, Structural)]
pub struct Duration {
    millis: i64,
}

/// The whole seconds in `ms` milliseconds, rounded towards zero.
pub open spec fn whole_seconds(ms: int) -> int {
    if ms >= 0 {
        ms / 1000
    } else {
        -((-ms) / 1000)
    }
}

impl Duration {
    /// The number of milliseconds.
    pub closed spec fn ms(&self) -> int {
        self.millis as int
    }

    /// A duration of `value` seconds.
    pub fn seconds(value: i64) -> (r: Duration)
        requires
            -9_223_372_036_854_775 <= value <= 9_223_372_036_854_775,
        ensures
            r.ms() == value * 1000,
    {
        Duration { millis: value * 1000 }
    }

    /// A duration of `value` milliseconds.
    pub fn milliseconds(value: i64) -> (r: Duration)
        ensures
            r.ms() == value,
    {
        Duration { millis: value }
    }

    /// The whole seconds in the duration, rounded towards zero.
    pub fn num_seconds(&self) -> (r: i64)
        ensures
            r == whole_seconds(self.ms()),
    {
        if self.millis >= 0 {
            self.millis / 1000
        } else {
            let m: i128 = 0i128 - self.millis as i128;
            (0i128 - m / 1000) as i64
        }
    }

    /// The milliseconds in the duration.
    pub fn num_milliseconds(&self) -> (r: i64)
        ensures
            r == self.ms(),
    {
        self.millis
    }
}

impl Default for Duration {
    fn default() -> (r: Duration)
        ensures
            r.ms() == 0,
    {
        Duration { millis: 0 }
    }
}

/// A point in time: milliseconds since the epoch, in UTC, with the offset
/// from UTC of the clock that it is shown on.
#[derive(Debug, Clone, Copy, PartialEq, Eq, Structural)]
pub struct Instant {
    millis: i64,
    offset: i64,
}

/// Clamps `ms` to the range that an [`Instant`] holds.
pub open spec fn clamp_instant(ms: int) -> int {
    if ms > MAX_INSTANT_MILLIS {
        MAX_INSTANT_MILLIS as int
    } else if ms < -MAX_INSTANT_MILLIS {
        -MAX_INSTANT_MILLIS
    } else {
        ms
    }
}

impl Instant {
    /// The milliseconds since the epoch, in UTC.
    pub closed spec fn ms(&self) -> int {
        self.millis as int
    }

    /// The milliseconds since the epoch on the clock it is shown on.
    pub closed spec fn shown_ms(&self) -> int {
        self.millis + self.offset
    }

    #[verifier::type_invariant]
    closed spec fn in_range(&self) -> bool {
        &&& -MAX_INSTANT_MILLIS <= self.millis <= MAX_INSTANT_MILLIS
        &&& -DAY_MILLIS < self.offset < DAY_MILLIS
    }

    /// The instant `ms` milliseconds after the epoch, shown in UTC.
    pub fn from_millis(ms: i64) -> (r: Instant)
        requires
            -MAX_INSTANT_MILLIS <= ms <= MAX_INSTANT_MILLIS,
        ensures
            r.ms() == ms,
            r.shown_ms() == ms,
    {
        Instant { millis: ms, offset: 0 }
    }

    /// The instant `ms` milliseconds after the epoch, shown on a clock
    /// `offset` milliseconds ahead of UTC.
    pub fn from_millis_local(ms: i64, offset: i64) -> (r: Instant)
        requires
            -MAX_INSTANT_MILLIS <= ms <= MAX_INSTANT_MILLIS,
            -DAY_MILLIS < offset < DAY_MILLIS,
        ensures
            r.ms() == ms,
            r.shown_ms() == ms + offset,
    {
        Instant { millis: ms, offset }
    }

    /// The milliseconds since the epoch.
    pub fn millis(&self) -> (r: i64)
        ensures
            r == self.ms(),
            -MAX_INSTANT_MILLIS <= r <= MAX_INSTANT_MILLIS,
    {
        proof {
            use_type_invariant(self);
        }
        self.millis
    }

    /// The instant `d` later, held to the range of an instant, shown on the
    /// same clock.
    pub fn add(&self, d: &Duration) -> (r: Instant)
        ensures
            r.ms() == clamp_instant(self.ms() + d.ms()),
            r.shown_ms() - r.ms() == self.shown_ms() - self.ms(),
    {
        proof {
            use_type_invariant(self);
        }
        let sum: i128 = self.millis as i128 + d.millis as i128;
        if sum > MAX_INSTANT_MILLIS as i128 {
            Instant { millis: MAX_INSTANT_MILLIS, offset: self.offset }
        } else if sum < -MAX_INSTANT_MILLIS as i128 {
            Instant { millis: -MAX_INSTANT_MILLIS, offset: self.offset }
        } else {
            Instant { millis: sum as i64, offset: self.offset }
        }
    }

    /// The time from `other` to `self`.
    pub fn sub(&self, other: &Instant) -> (r: Duration)
        ensures
            r.ms() == self.ms() - other.ms(),
            -2 * MAX_INSTANT_MILLIS <= r.ms() <= 2 * MAX_INSTANT_MILLIS,
    {
        proof {
            use_type_invariant(self);
            use_type_invariant(other);
        }
        Duration { millis: self.millis - other.millis }
    }

    /// Moves one second ahead, held to the range of an instant, and returns
    /// the instant from before the move.
    pub fn incr(&mut self) -> (r: Instant)
        ensures
            r == *old(self),
            final(self).ms() == clamp_instant(old(self).ms() + 1000),
            final(self).shown_ms() - final(self).ms() == old(self).shown_ms() - old(self).ms(),
    {
        let me = *self;
        *self = me.add(&Duration::seconds(1));
        me
    }

    /// The instant as `YYYY-MM-DD HH:MM:SS` on the clock it is shown on.
    pub fn to_text(&self) -> (r: String)
        ensures
            r@ == clock_text(civil_of(self.shown_ms())),
    {
        proof {
            use_type_invariant(self);
        }
        let c = civil_from_millis(self.millis + self.offset);
        match c {
            Some(c) => clock_string(&c),
            None => String::new(),
        }
    }
}

impl Default for Instant {
    fn default() -> (r: Instant)
        ensures
            r.ms() == 0,
            r.shown_ms() == 0,
    {
        Instant { millis: 0, offset: 0 }
    }
}

} // verus!
