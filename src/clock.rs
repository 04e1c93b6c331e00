use vstd::arithmetic::div_mod::lemma_fundamental_div_mod_converse;
use vstd::prelude::*;

verus! {

/// Nanoseconds in one second.
pub const NANOS_PER_SECOND: u32 = 1_000_000_000;

/// An instant on the UTC wall clock, as seconds and nanoseconds since the
/// Unix epoch (1970-01-01T00:00:00Z).
#[derive(Clone, Copy, Debug, PartialEq, Eq, Structural)]
pub struct WallTime {
    pub secs: i64,
    pub nanos: u32,
}

impl WallTime {
    /// The sub-second part is below one second.
    pub open spec fn wf(self) -> bool {
        self.nanos < NANOS_PER_SECOND
    }

    /// The instant as a single count of nanoseconds since the epoch.
    pub open spec fn total_nanos(self) -> int {
        self.secs as int * NANOS_PER_SECOND as int + self.nanos as int
    }
}

/// Whole seconds from `then` to `now`, or `None` when `then` lies after `now`.
pub open spec fn elapsed_spec(now: WallTime, then: WallTime) -> Option<int> {
    if then.total_nanos() <= now.total_nanos() {
        Some((now.total_nanos() - then.total_nanos()) / NANOS_PER_SECOND as int)
    } else {
        None
    }
}

/// Whole seconds elapsed from `then` until `now`, rounded down. An instant
/// `then` later than `now` has no elapsed time and gives `None`.
pub fn elapsed_seconds(now: WallTime, then: WallTime) -> (r: Option<u64>)
    requires
        now.wf(),
        then.wf(),
    ensures
        match elapsed_spec(now, then) {
            Some(s) => r == Some(s as u64) && s <= u64::MAX,
            None => r is None,
        },
{
    let d: i128 = now.secs as i128 - then.secs as i128;
    let borrow: i128 = if now.nanos >= then.nanos { 0 } else { 1 };
    let q: i128 = d - borrow;
    let ghost rem: int = if borrow == 0 {
        now.nanos as int - then.nanos as int
    } else {
        now.nanos as int - then.nanos as int + NANOS_PER_SECOND as int
    };
    let ghost diff: int = now.total_nanos() - then.total_nanos();
    assert(diff == q as int * 1_000_000_000 + rem) by (nonlinear_arith)
        requires
            diff == (now.secs as int * 1_000_000_000 + now.nanos as int) - (then.secs as int
                * 1_000_000_000 + then.nanos as int),
            q as int == now.secs as int - then.secs as int - borrow as int,
            rem == now.nanos as int - then.nanos as int + borrow as int * 1_000_000_000,
    ;
    assert(0 <= rem < 1_000_000_000);
    proof {
        lemma_fundamental_div_mod_converse(diff, 1_000_000_000, q as int, rem);
    }
    if q < 0 {
        assert(diff < 0) by (nonlinear_arith)
            requires
                diff == q as int * 1_000_000_000 + rem,
                q < 0,
                rem < 1_000_000_000,
        ;
        None
    } else {
        assert(diff >= 0) by (nonlinear_arith)
            requires
                diff == q as int * 1_000_000_000 + rem,
                q >= 0,
                rem >= 0,
        ;
        Some(q as u64)
    }
}

/// The compact UTC rendering `YYYYMMDDTHHMMSSZ` of the instant `secs`
/// seconds after the epoch, as chrono formats it.
pub uninterp spec fn utc_compact_of(secs: i64) -> Seq<char>;

/// The smallest count of nanoseconds a [`WallTime`] holds.
pub open spec fn min_total_nanos() -> int {
    i64::MIN as int * NANOS_PER_SECOND as int
}

/// The largest count of nanoseconds a [`WallTime`] holds.
pub open spec fn max_total_nanos() -> int {
    i64::MAX as int * NANOS_PER_SECOND as int + (NANOS_PER_SECOND - 1) as int
}

/// The signed offset from the epoch of an instant `secs` seconds and `nanos`
/// nanoseconds after it (`after`) or before it.
pub open spec fn epoch_offset_nanos(after: bool, secs: u64, nanos: u32) -> int {
    let n = secs as int * NANOS_PER_SECOND as int + nanos as int;
    if after {
        n
    } else {
        -n
    }
}

/// The instant `secs` seconds and `nanos` nanoseconds after the epoch
/// (`after`) or before it. An instant beyond the range of [`WallTime`] is
/// taken as the nearest instant in it.
pub fn wall_time_from_epoch_offset(after: bool, secs: u64, nanos: u32) -> (r: WallTime)
    requires
        nanos < NANOS_PER_SECOND,
    ensures
        r.wf(),
        r.total_nanos() == if epoch_offset_nanos(after, secs, nanos) < min_total_nanos() {
            min_total_nanos()
        } else if epoch_offset_nanos(after, secs, nanos) > max_total_nanos() {
            max_total_nanos()
        } else {
            epoch_offset_nanos(after, secs, nanos)
        },
{
    let ghost off = epoch_offset_nanos(after, secs, nanos);
    let big: u64 = 0x8000_0000_0000_0000;
    if after {
        if secs < big {
            WallTime { secs: secs as i64, nanos }
        } else {
            assert(off > max_total_nanos()) by (nonlinear_arith)
                requires
                    off == secs as int * 1_000_000_000 + nanos as int,
                    secs >= 0x8000_0000_0000_0000,
                    nanos >= 0,
            ;
            WallTime { secs: i64::MAX, nanos: NANOS_PER_SECOND - 1 }
        }
    } else if nanos == 0 {
        if secs <= big {
            let r = WallTime { secs: (0 - secs as i128) as i64, nanos: 0 };
            r
        } else {
            assert(off < min_total_nanos()) by (nonlinear_arith)
                requires
                    off == -(secs as int * 1_000_000_000),
                    secs > 0x8000_0000_0000_0000,
            ;
            WallTime { secs: i64::MIN, nanos: 0 }
        }
    } else {
        if secs < big {
            let whole = (0 - secs as i128 - 1) as i64;
            let r = WallTime { secs: whole, nanos: NANOS_PER_SECOND - nanos };
            assert(r.total_nanos() == off) by (nonlinear_arith)
                requires
                    r.secs as int == -(secs as int) - 1,
                    r.nanos as int == 1_000_000_000 - nanos as int,
                    off == -(secs as int * 1_000_000_000 + nanos as int),
                    r.total_nanos() == r.secs as int * 1_000_000_000 + r.nanos as int,
            ;
            r
        } else {
            assert(off < min_total_nanos()) by (nonlinear_arith)
                requires
                    off == -(secs as int * 1_000_000_000 + nanos as int),
                    secs >= 0x8000_0000_0000_0000,
                    nanos > 0,
            ;
            WallTime { secs: i64::MIN, nanos: 0 }
        }
    }
}

/// std's `SystemTime`, carried unopened from the clock to its offset.
#[verifier::external_type_specification]
#[verifier::external_body]
pub struct ExSystemTime(std::time::SystemTime);

/// Relies on std's `SystemTime::now`: the present instant of the system
/// clock, whatever it reads.
#[verifier::external_body]
fn system_now() -> (r: std::time::SystemTime) {
    std::time::SystemTime::now()
}

/// Relies on std's `SystemTime::duration_since(UNIX_EPOCH)`: the distance of
/// `t` from the epoch, after it (`Ok`) or, through `SystemTimeError::duration`,
/// before it, as whole seconds and a sub-second part that `Duration` keeps
/// below one second.
#[verifier::external_body]
fn epoch_offset(t: &std::time::SystemTime) -> (r: (bool, u64, u32))
    ensures
        r.2 < NANOS_PER_SECOND,
{
    match t.duration_since(std::time::UNIX_EPOCH) {
        Ok(d) => (true, d.as_secs(), d.subsec_nanos()),
        Err(e) => (false, e.duration().as_secs(), e.duration().subsec_nanos()),
    }
}

/// The present instant of the system clock.
pub(crate) fn clock_now() -> (r: WallTime)
    ensures
        r.wf(),
{
    let t = system_now();
    let (after, secs, nanos) = epoch_offset(&t);
    wall_time_from_epoch_offset(after, secs, nanos)
}

/// The first second that chrono can render: January 1, 262144 BCE, 00:00:00
/// UTC, its `NaiveDate::MIN`.
pub const STAMP_MIN_SECS: i64 = -8_334_601_228_800;

/// The last second that chrono can render: December 31, 262142 CE, 23:59:59
/// UTC, on its `NaiveDate::MAX`.
pub const STAMP_MAX_SECS: i64 = 8_210_266_876_799;

/// The instant `secs` seconds after the epoch can be rendered as a timestamp.
pub open spec fn stampable(secs: i64) -> bool {
    STAMP_MIN_SECS <= secs <= STAMP_MAX_SECS
}

/// Relies on chrono's `DateTime::from_timestamp` and `format`: the instant
/// `secs` rendered with `%Y%m%dT%H%M%SZ`. `from_timestamp` gives `None` only
/// for a day outside `NaiveDate::MIN ..= NaiveDate::MAX`.
#[verifier::external_body]
pub(crate) fn format_utc_compact(secs: i64) -> (r: Option<String>)
    ensures
        r is Some <==> stampable(secs),
        r matches Some(s) ==> s@ == utc_compact_of(secs),
{
    match chrono::DateTime::from_timestamp(secs, 0) {
        Some(t) => Some(t.format("%Y%m%dT%H%M%SZ").to_string()),
        None => None,
    }
}

} // verus!
