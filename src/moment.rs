//! Points in time as plain values, and the two calendar facts that the
//! streak rules read from them: whole days elapsed and the weekday.

use vstd::prelude::*;

verus! {

pub const NANOS_PER_SEC: i128 = 1_000_000_000;

pub const SECS_PER_DAY: i128 = 86_400;

pub const NANOS_PER_DAY: i128 = 86_400_000_000_000;

/// An instant on the time line, together with the UTC offset of the clock
/// that recorded it.
#[derive(Clone, Copy, Debug, PartialEq, Eq, Structural)]
pub struct Moment {
    /// Whole seconds since 1970-01-01T00:00:00Z.
    pub secs: i64,
    /// Nanoseconds past `secs`.
    pub nanos: u32,
    /// Local time minus UTC, in seconds.
    pub offset: i32,
}

/// The instant in nanoseconds since the epoch.
pub open spec fn instant_nanos(m: Moment) -> int {
    m.secs * NANOS_PER_SEC + m.nanos
}

/// Integer division that rounds toward zero.
pub open spec fn div_toward_zero(a: int, b: int) -> int {
    if a >= 0 {
        a / b
    } else {
        -((-a) / b)
    }
}

/// Whole days elapsed from `earlier` to `later`, truncated toward zero:
/// negative when `later` lies before `earlier`, and zero for any two
/// instants less than 24 hours apart.
pub open spec fn days_between(later: Moment, earlier: Moment) -> int {
    div_toward_zero(instant_nanos(later) - instant_nanos(earlier), NANOS_PER_DAY as int)
}

/// The local calendar day of `m`, counted from 1970-01-01.
pub open spec fn local_day(m: Moment) -> int {
    (m.secs + m.offset) / (SECS_PER_DAY as int)
}

pub const MONDAY: u8 = 0;

pub const FRIDAY: u8 = 4;

pub const SATURDAY: u8 = 5;

pub const SUNDAY: u8 = 6;

/// Day of the week of `m` in its own offset, Monday being 0 and Sunday 6
/// (1970-01-01 was a Thursday).
pub open spec fn weekday_of(m: Moment) -> int {
    (local_day(m) + 3) % 7
}

impl Moment {
    /// Whole days elapsed from `earlier` to `self`.
    pub fn days_since(&self, earlier: &Moment) -> (r: i64)
        ensures
            r == days_between(*self, *earlier),
    {
        let ds: i128 = self.secs as i128 - earlier.secs as i128;
        let dn: i128 = self.nanos as i128 - earlier.nanos as i128;
        assert(-0x1_0000_0000_0000_0000 * 1_000_000_000 <= ds * 1_000_000_000
            <= 0x1_0000_0000_0000_0000 * 1_000_000_000) by (nonlinear_arith)
            requires
                -0x1_0000_0000_0000_0000 <= ds <= 0x1_0000_0000_0000_0000,
        ;
        let d: i128 = ds * NANOS_PER_SEC + dn;
        assert(d == instant_nanos(*self) - instant_nanos(*earlier)) by (nonlinear_arith)
            requires
                ds == self.secs - earlier.secs,
                dn == self.nanos - earlier.nanos,
                d == ds * 1_000_000_000 + dn,
                NANOS_PER_SEC == 1_000_000_000,
        ;
        let days: i128 = if d >= 0 {
            let q: i128 = d / NANOS_PER_DAY;
            assert(0 <= q <= 0x10_0000_0000_0000) by (nonlinear_arith)
                requires
                    0 <= d <= 0x2_0000_0000_0000_0000 * 1_000_000_000,
                    q == d / 86_400_000_000_000,
            ;
            q
        } else {
            let q: i128 = (-d) / NANOS_PER_DAY;
            assert(0 <= q <= 0x10_0000_0000_0000) by (nonlinear_arith)
                requires
                    0 <= -d <= 0x2_0000_0000_0000_0000 * 1_000_000_000,
                    q == (-d) / 86_400_000_000_000,
            ;
            -q
        };
        days as i64
    }

    /// Day of the week in the moment's own offset, Monday being 0.
    pub fn weekday(&self) -> (r: u8)
        ensures
            r == weekday_of(*self),
            r < 7,
    {
        // Shifting by a whole number of weeks keeps the weekday and makes
        // the local time non-negative, so plain division floors.
        let shift: i128 = 7 * SECS_PER_DAY * 0x8000_0000_0000;
        let local: i128 = self.secs as i128 + self.offset as i128 + shift;
        let day: i128 = local / SECS_PER_DAY;
        let w: i128 = (day + 3) % 7;
        assert(w == weekday_of(*self)) by (nonlinear_arith)
            requires
                local == self.secs + self.offset + shift,
                shift == 7 * SECS_PER_DAY * 0x8000_0000_0000,
                local >= 0,
                day == local / SECS_PER_DAY,
                w == (day + 3) % 7,
        ;
        w as u8
    }
}

/// The UTC seconds, the nanoseconds within the second and the UTC offset
/// in seconds of an RFC 3339 timestamp, or `None` where it does not parse.
pub uninterp spec fn rfc3339_parts(s: Seq<char>) -> Option<(i64, u32, i32)>;

/// Relies on chrono's `DateTime::parse_from_rfc3339`: the parsed instant
/// depends on the text alone; it is read back as plain values through
/// `timestamp`, `timestamp_subsec_nanos` and `FixedOffset::local_minus_utc`.
#[verifier::external_body]
fn rfc3339_to_parts(s: &str) -> (r: Option<(i64, u32, i32)>)
    ensures
        r == rfc3339_parts(s@),
{
    match chrono::DateTime::parse_from_rfc3339(s) {
        Ok(t) => Some((t.timestamp(), t.timestamp_subsec_nanos(), t.offset().local_minus_utc())),
        Err(_) => None,
    }
}

/// The moment that parsed parts stand for. An instant inside a leap second
/// (nanoseconds of a second or more) has none.
pub open spec fn moment_from_parts(p: Option<(i64, u32, i32)>) -> Option<Moment> {
    match p {
        Some((secs, nanos, offset)) => if nanos < NANOS_PER_SEC {
            Some(Moment { secs, nanos, offset })
        } else {
            None
        },
        None => None,
    }
}

/// The moment of an RFC 3339 timestamp such as `2021-01-13T00:00:00+00:00`.
pub open spec fn parsed_moment(s: Seq<char>) -> Option<Moment> {
    moment_from_parts(rfc3339_parts(s))
}

impl Moment {
    /// Reads an RFC 3339 timestamp; `None` where the text is no such
    /// timestamp or names a leap second.
    pub fn parse_rfc3339(s: &str) -> (r: Option<Moment>)
        ensures
            r == parsed_moment(s@),
    {
        match rfc3339_to_parts(s) {
            Some((secs, nanos, offset)) => {
                if nanos < 1_000_000_000 {
                    Some(Moment { secs, nanos, offset })
                } else {
                    None
                }
            },
            None => None,
        }
    }
}

} // verus!
