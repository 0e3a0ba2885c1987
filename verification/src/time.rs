//! Instants on the UTC time line, their order, and the wall-clock hour of an
//! instant in a named IANA time zone.

use vstd::arithmetic::div_mod::lemma_fundamental_div_mod;
use vstd::arithmetic::div_mod::lemma_fundamental_div_mod_converse;
use vstd::prelude::*;

verus! {

/// An instant on the UTC time line: whole seconds since the Unix epoch and the
/// nanoseconds within that second.
///
/// `nanos` may reach past one second (up to two) to denote a leap second, as
/// chrono allows. Instants are ordered by `secs` first and `nanos` second, which
/// is the order of chrono's `DateTime` values whatever their offset.
#[derive(Clone, Copy, Debug, PartialEq, Eq, Structural)]
pub struct Timestamp {
    pub secs: i64,
    pub nanos: u32,
}

/// `a` is at or before `b`.
pub open spec fn ts_le(a: Timestamp, b: Timestamp) -> bool {
    a.secs < b.secs || (a.secs == b.secs && a.nanos <= b.nanos)
}

/// `a` is strictly before `b`.
pub open spec fn ts_lt(a: Timestamp, b: Timestamp) -> bool {
    a.secs < b.secs || (a.secs == b.secs && a.nanos < b.nanos)
}

impl Timestamp {
    /// Returns `true` when `self` is at or before `other`.
    pub fn is_at_or_before(&self, other: &Timestamp) -> (r: bool)
        ensures
            r == ts_le(*self, *other),
    {
        self.secs < other.secs || (self.secs == other.secs && self.nanos <= other.nanos)
    }

    /// Returns `true` when `self` is strictly before `other`.
    pub fn is_before(&self, other: &Timestamp) -> (r: bool)
        ensures
            r == ts_lt(*self, *other),
    {
        self.secs < other.secs || (self.secs == other.secs && self.nanos < other.nanos)
    }
}

/// The hour (0 to 23) that a clock shows at `secs` seconds after the epoch, on
/// a clock that runs `offset` seconds ahead of UTC.
pub open spec fn hour_of_day(secs: int, offset: int) -> int {
    ((secs + offset) % 86400) / 3600
}

/// A clock shows an hour from 0 to 23.
pub proof fn lemma_hour_of_day_range(secs: int, offset: int)
    ensures
        0 <= hour_of_day(secs, offset) < 24,
{
    let r = (secs + offset) % 86400;
    assert(0 <= r < 86400);
    assert(0 <= r / 3600 < 24) by (nonlinear_arith)
        requires
            0 <= r < 86400,
    ;
}

/// The second within the UTC day of `secs` seconds after the epoch.
fn second_of_day(secs: i64) -> (sod: i64)
    ensures
        sod == (secs as int) % 86400,
        0 <= sod < 86400,
{
    if secs >= 0 {
        let u: u64 = secs as u64;
        let r: u64 = u % 86400;
        r as i64
    } else {
        let m: u64 = (-(secs + 1)) as u64;
        let r: u64 = m % 86400;
        let sod: i64 = 86399 - r as i64;
        proof {
            let q = (m as int) / 86400;
            lemma_fundamental_div_mod(m as int, 86400);
            assert(m as int == 86400 * q + r as int);
            assert(secs as int == (-(q + 1)) * 86400 + sod as int) by (nonlinear_arith)
                requires
                    m as int == 86400 * q + r as int,
                    secs as int == -(m as int) - 1,
                    sod as int == 86399 - r as int,
            ;
            lemma_fundamental_div_mod_converse(secs as int, 86400, -(q + 1), sod as int);
        }
        sod
    }
}

/// The hour on a clock that runs `offset` seconds ahead of UTC, at `secs`
/// seconds after the epoch.
pub fn local_hour(secs: i64, offset: i32) -> (hour: u32)
    requires
        -86400 < offset < 86400,
    ensures
        hour == hour_of_day(secs as int, offset as int),
        hour < 24,
{
    let sod = second_of_day(secs);
    let local: i64 = sod + offset as i64;
    let wrapped: i64 = if local < 0 {
        local + 86400
    } else if local >= 86400 {
        local - 86400
    } else {
        local
    };
    proof {
        let q = (secs as int) / 86400;
        lemma_fundamental_div_mod(secs as int, 86400);
        let k: int = if local < 0 {
            q - 1
        } else if local >= 86400 {
            q + 1
        } else {
            q
        };
        assert((secs as int) + (offset as int) == k * 86400 + wrapped as int) by (nonlinear_arith)
            requires
                secs as int == 86400 * q + sod as int,
                local as int == sod as int + offset as int,
                local < 0 ==> (k == q - 1 && wrapped as int == local as int + 86400),
                local >= 86400 ==> (k == q + 1 && wrapped as int == local as int - 86400),
                0 <= local < 86400 ==> (k == q && wrapped == local),
        ;
        lemma_fundamental_div_mod_converse(secs as int + offset as int, 86400, k, wrapped as int);
    }
    (wrapped / 3600) as u32
}

/// What the tz database that chrono-tz compiles in gives as the offset from
/// UTC, in seconds, of the zone named `zone` at `secs` seconds after the epoch;
/// `None` where `zone` names no zone of that database or the instant lies
/// outside chrono's range.
pub uninterp spec fn zone_offset_at(zone: Seq<char>, secs: i64) -> Option<i32>;

/// Looks `zone` up with chrono-tz's `Tz::from_str`, makes the instant with
/// chrono's `DateTime::from_timestamp`, and asks chrono-tz's
/// `TimeZone::offset_from_utc_datetime` for the offset in effect there
/// (`Offset::fix` and `FixedOffset::local_minus_utc` read it out in seconds).
/// The contract claims that the result is the named value above, and that an
/// offset is less than a day either way, as chrono's `FixedOffset` guarantees.
#[verifier::external_body]
fn utc_offset_in_zone(zone: &str, secs: i64) -> (offset: Option<i32>)
    ensures
        offset == zone_offset_at(zone@, secs),
        offset matches Some(o) ==> -86400 < o < 86400,
{
    let tz: chrono_tz::Tz = zone.parse().ok()?;
    let utc = chrono::DateTime::from_timestamp(secs, 0)?;
    let off = chrono::TimeZone::offset_from_utc_datetime(&tz, &utc.naive_utc());
    Some(chrono::Offset::fix(&off).local_minus_utc())
}

/// The hour of the day that the zone named `zone` shows at `at`, or `None`
/// where the zone or the instant is unknown to the tz database.
pub open spec fn zone_hour_at(zone: Seq<char>, at: Timestamp) -> Option<int> {
    match zone_offset_at(zone, at.secs) {
        Some(off) => Some(hour_of_day(at.secs as int, off as int)),
        None => None,
    }
}

/// The hour of the day that the zone named `zone` shows at `at`.
pub fn hour_in_zone(zone: &str, at: Timestamp) -> (hour: Option<u32>)
    ensures
        match hour {
            Some(h) => zone_hour_at(zone@, at) == Some(h as int) && h < 24,
            None => zone_hour_at(zone@, at) is None,
        },
        match hour {
            Some(h) => zone_offset_at(zone@, at.secs) matches Some(off) && h == ((at.secs + off) % 86400)
                / 3600,
            None => zone_offset_at(zone@, at.secs) is None,
        },
{
    match utc_offset_in_zone(zone, at.secs) {
        Some(off) => Some(local_hour(at.secs, off)),
        None => None,
    }
}

/// How far the system clock stands from the Unix epoch: `Ok` with the whole
/// seconds and nanoseconds after it, `Err` with those before it.
///
/// Reads std's `SystemTime::now` and measures it against `UNIX_EPOCH` with
/// `SystemTime::duration_since`, whose two outcomes are the two arms; each
/// `Duration` is read out with `as_secs` and `subsec_nanos`. The contract claims
/// only what holds of every reading: the nanoseconds of a `Duration` are less
/// than a second, as std documents. Which instant the clock shows is not
/// stated: it depends on the machine.
#[verifier::external_body]
fn read_system_clock() -> (r: Result<(u64, u32), (u64, u32)>)
    ensures
        match r {
            Ok((_, n)) => n < 1_000_000_000,
            Err((_, n)) => n < 1_000_000_000,
        },
{
    match std::time::SystemTime::now().duration_since(std::time::UNIX_EPOCH) {
        Ok(d) => Ok((d.as_secs(), d.subsec_nanos())),
        Err(e) => Err((e.duration().as_secs(), e.duration().subsec_nanos())),
    }
}

/// The instant `t` in nanoseconds since the epoch, for `t.nanos` below one
/// second.
pub open spec fn total_nanos(t: Timestamp) -> int {
    t.secs * 1_000_000_000 + t.nanos
}

/// The instant that a clock reading denotes: `secs` seconds and `nanos`
/// nanoseconds after the epoch (`Ok`) or before it (`Err`). Readings beyond the
/// range of `Timestamp` (some 292 billion years) give its last or first
/// instant.
pub fn timestamp_of_reading(reading: Result<(u64, u32), (u64, u32)>) -> (t: Timestamp)
    requires
        match reading {
            Ok((_, n)) => n < 1_000_000_000,
            Err((_, n)) => n < 1_000_000_000,
        },
    ensures
        t.nanos < 1_000_000_000,
        match reading {
            Ok((s, n)) => if s <= i64::MAX {
                total_nanos(t) == s * 1_000_000_000 + n
            } else {
                t == (Timestamp { secs: i64::MAX, nanos: 999_999_999 })
            },
            Err((s, n)) => if s <= i64::MAX {
                total_nanos(t) == -(s * 1_000_000_000 + n)
            } else {
                t == (Timestamp { secs: i64::MIN, nanos: 0 })
            },
        },
{
    match reading {
        Ok((s, n)) => if s <= i64::MAX as u64 {
            Timestamp { secs: s as i64, nanos: n }
        } else {
            Timestamp { secs: i64::MAX, nanos: 999_999_999 }
        },
        Err((s, n)) => if s <= i64::MAX as u64 {
            if n == 0 {
                Timestamp { secs: -(s as i64), nanos: 0 }
            } else {
                Timestamp { secs: -(s as i64) - 1, nanos: 1_000_000_000 - n }
            }
        } else {
            Timestamp { secs: i64::MIN, nanos: 0 }
        },
    }
}

/// The instant that the system clock shows, before the epoch too. Which
/// instant that is depends on the machine; it is no leap second.
pub fn current_time() -> (t: Timestamp)
    ensures
        t.nanos < 1_000_000_000,
{
    let reading = read_system_clock();
    timestamp_of_reading(reading)
}

} // verus!
