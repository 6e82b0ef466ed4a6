//! Wall-clock time and its mapping to clock-hand angles.
//!
//! A local time of day is a count of whole seconds since midnight. The hour
//! hand of the dial makes one revolution per day, the minute hand one
//! revolution per hour, so their angles are the exact fractions
//! `secs / 86400` and `(secs % 3600) / 3600` of a turn.

use vstd::prelude::*;

use crate::angle::Turn;

verus! {

pub const SECONDS_PER_DAY: u32 = 86400;

pub const SECONDS_PER_HOUR: u32 = 3600;

/// Days in the year of the seasonal approximation; leap days are ignored on
/// purpose, the dial being a visual widget rather than an almanac.
pub const DAYS_PER_YEAR: u32 = 365;

/// A local time of day, as whole seconds since the last local midnight.
#[derive(Clone, Copy, Debug, PartialEq, Eq, Structural)]
pub struct TimeOfDay {
    pub secs: u32,
}

/// An instant of calendar time in UTC, reduced to the two fields the globe
/// shading depends on: seconds since the last UTC midnight, and the day of
/// the year counted from zero.
#[derive(Clone, Copy, Debug, PartialEq, Eq, Structural)]
pub struct UtcInstant {
    pub day_seconds: u32,
    pub day_of_year0: u32,
}

impl TimeOfDay {
    pub open spec fn wf(self) -> bool {
        self.secs < SECONDS_PER_DAY
    }

    /// The hour hand turns once per day: `secs / 86400` of a turn.
    pub open spec fn spec_hour_hand_angle(self) -> Turn {
        Turn { num: self.secs, den: SECONDS_PER_DAY }
    }

    /// The minute hand turns once per hour: `(secs % 3600) / 3600` of a turn.
    pub open spec fn spec_minute_hand_angle(self) -> Turn {
        Turn { num: (self.secs % SECONDS_PER_HOUR) as u32, den: SECONDS_PER_HOUR }
    }

    /// The time of day `h:m:s`.
    pub fn from_hms(hour: u32, minute: u32, second: u32) -> (r: TimeOfDay)
        requires
            hour < 24,
            minute < 60,
            second < 60,
        ensures
            r.wf(),
            r.secs == hour * 3600 + minute * 60 + second,
    {
        TimeOfDay { secs: hour * 3600 + minute * 60 + second }
    }

    /// The time of day a given number of seconds past midnight.
    pub fn from_seconds(secs: u32) -> (r: TimeOfDay)
        requires
            secs < SECONDS_PER_DAY,
        ensures
            r.wf(),
            r.secs == secs,
    {
        TimeOfDay { secs }
    }

    pub fn hour_hand_angle(&self) -> (r: Turn)
        requires
            self.wf(),
        ensures
            r == self.spec_hour_hand_angle(),
            r.wf(),
    {
        Turn { num: self.secs, den: SECONDS_PER_DAY }
    }

    pub fn minute_hand_angle(&self) -> (r: Turn)
        requires
            self.wf(),
        ensures
            r == self.spec_minute_hand_angle(),
            r.wf(),
    {
        Turn { num: self.secs % SECONDS_PER_HOUR, den: SECONDS_PER_HOUR }
    }
}

impl UtcInstant {
    pub open spec fn wf(self) -> bool {
        self.day_seconds < SECONDS_PER_DAY && self.day_of_year0 < DAYS_PER_YEAR + 1
    }

    /// The instant `day_seconds` past UTC midnight on day `day_of_year0`.
    pub fn from_parts(day_seconds: u32, day_of_year0: u32) -> (r: UtcInstant)
        requires
            day_seconds < SECONDS_PER_DAY,
            day_of_year0 < DAYS_PER_YEAR + 1,
        ensures
            r.wf(),
            r.day_seconds == day_seconds,
            r.day_of_year0 == day_of_year0,
    {
        UtcInstant { day_seconds, day_of_year0 }
    }
}

/// Samples the system clock once and reduces it to the plain values the scene
/// needs: the current UTC instant for the globe and the current local time of
/// day for the clock hands.
///
/// Relies on `chrono::Utc::now` for the instant, `DateTime::with_timezone`
/// with `chrono::Local` for the local reading, `chrono::Timelike::
/// num_seconds_from_midnight` (documented range 0..=86399) and
/// `chrono::Datelike::ordinal0` (documented range 0..=365). Nothing more can
/// be promised of a clock reading than those ranges.
#[verifier::external_body]
pub fn sample_wall_clock() -> (r: (UtcInstant, TimeOfDay))
    ensures
        r.0.wf(),
        r.1.wf(),
{
    let utc = chrono::Utc::now();
    let local = utc.with_timezone(&chrono::Local);
    (
        UtcInstant {
            day_seconds: chrono::Timelike::num_seconds_from_midnight(&utc),
            day_of_year0: chrono::Datelike::ordinal0(&utc),
        },
        TimeOfDay { secs: chrono::Timelike::num_seconds_from_midnight(&local) },
    )
}

/// As a running count of seconds advances, the hour hand strictly advances:
/// within one day, a later time of day always has the strictly larger hour-
/// hand angle.
pub proof fn lemma_hour_hand_strictly_increasing(t1: TimeOfDay, t2: TimeOfDay)
    requires
        t1.wf(),
        t2.wf(),
        t1.secs < t2.secs,
    ensures
        t1.spec_hour_hand_angle().precedes(t2.spec_hour_hand_angle()),
{
    assert(t1.secs * (SECONDS_PER_DAY as int) < t2.secs * (SECONDS_PER_DAY as int))
        by (nonlinear_arith)
        requires
            t1.secs < t2.secs,
    ;
}

/// Within one hour, a later time of day always has the strictly larger
/// minute-hand angle; the hand wraps only at the hour boundary.
pub proof fn lemma_minute_hand_strictly_increasing(t1: TimeOfDay, t2: TimeOfDay)
    requires
        t1.wf(),
        t2.wf(),
        t1.secs < t2.secs,
        t1.secs / SECONDS_PER_HOUR == t2.secs / SECONDS_PER_HOUR,
    ensures
        t1.spec_minute_hand_angle().precedes(t2.spec_minute_hand_angle()),
{
    let h = SECONDS_PER_HOUR as int;
    vstd::arithmetic::div_mod::lemma_fundamental_div_mod(t1.secs as int, h);
    vstd::arithmetic::div_mod::lemma_fundamental_div_mod(t2.secs as int, h);
    assert(t1.secs % SECONDS_PER_HOUR < t2.secs % SECONDS_PER_HOUR);
    let a = t1.spec_minute_hand_angle().num;
    let b = t2.spec_minute_hand_angle().num;
    assert(a * h < b * h) by (nonlinear_arith)
        requires
            a < b,
            0 < h,
    ;
}

/// The hour hand is continuous: one second advances it by exactly one
/// 86400th of a turn, never by a jump.
pub proof fn lemma_hour_hand_continuous(t1: TimeOfDay, t2: TimeOfDay)
    requires
        t1.wf(),
        t2.wf(),
        t2.secs == t1.secs + 1,
    ensures
        t2.spec_hour_hand_angle().num == t1.spec_hour_hand_angle().num + 1,
        t2.spec_hour_hand_angle().den == t1.spec_hour_hand_angle().den,
{
}

/// The minute hand is continuous: one second advances it by exactly one
/// 3600th of a turn, except at an hour boundary, where it wraps exactly
/// back to zero.
pub proof fn lemma_minute_hand_continuous(t1: TimeOfDay, t2: TimeOfDay)
    requires
        t1.wf(),
        t2.wf(),
        t2.secs == t1.secs + 1,
    ensures
        t1.spec_minute_hand_angle().num + 1 < SECONDS_PER_HOUR ==> t2.spec_minute_hand_angle().num
            == t1.spec_minute_hand_angle().num + 1,
        t1.spec_minute_hand_angle().num + 1 == SECONDS_PER_HOUR ==> t2.spec_minute_hand_angle().num
            == 0,
{
    let h = SECONDS_PER_HOUR as int;
    vstd::arithmetic::div_mod::lemma_fundamental_div_mod(t1.secs as int, h);
    vstd::arithmetic::div_mod::lemma_fundamental_div_mod(t2.secs as int, h);
    let q1 = t1.secs as int / h;
    let r1 = t1.secs as int % h;
    if r1 + 1 < h {
        vstd::arithmetic::div_mod::lemma_fundamental_div_mod_converse_mod(
            t2.secs as int,
            h,
            q1,
            r1 + 1,
        );
    } else {
        vstd::arithmetic::div_mod::lemma_fundamental_div_mod_converse_mod(
            t2.secs as int,
            h,
            q1 + 1,
            0,
        );
    }
}

/// The time of day that a running count of seconds lands on.
pub open spec fn spec_day_second(total_seconds: nat) -> nat {
    total_seconds % (SECONDS_PER_DAY as nat)
}

/// Both hands are driven by the time of day alone, which repeats with a
/// period of exactly one day: the hands wrap at the 24h boundary.
pub proof fn lemma_hands_daily_period(total_seconds: nat)
    ensures
        spec_day_second((total_seconds + SECONDS_PER_DAY) as nat) == spec_day_second(total_seconds),
{
    vstd::arithmetic::div_mod::lemma_mod_add_multiples_vanish(
        total_seconds as int,
        SECONDS_PER_DAY as int,
    );
}

/// As a running count of seconds advances by one, the time of day advances
/// by exactly one second — wrapping exactly to zero at the 24h boundary and
/// jumping nowhere else.
pub proof fn lemma_day_second_step(total_seconds: nat)
    ensures
        spec_day_second(total_seconds) + 1 < SECONDS_PER_DAY ==> spec_day_second(
            (total_seconds + 1) as nat,
        ) == spec_day_second(total_seconds) + 1,
        spec_day_second(total_seconds) + 1 == SECONDS_PER_DAY ==> spec_day_second(
            (total_seconds + 1) as nat,
        ) == 0,
{
    let d = SECONDS_PER_DAY as int;
    vstd::arithmetic::div_mod::lemma_fundamental_div_mod(total_seconds as int, d);
    let q = total_seconds as int / d;
    let r = total_seconds as int % d;
    if r + 1 < d {
        vstd::arithmetic::div_mod::lemma_fundamental_div_mod_converse_mod(
            total_seconds as int + 1,
            d,
            q,
            r + 1,
        );
    } else {
        vstd::arithmetic::div_mod::lemma_fundamental_div_mod_converse_mod(
            total_seconds as int + 1,
            d,
            q + 1,
            0,
        );
    }
}

} // verus!
