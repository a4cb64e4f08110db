//! Conversion of native CPU-time counters into one unit: nanoseconds in a `u64`.

use vstd::prelude::*;

verus! {

pub const NANOS_PER_SEC: u64 = 1_000_000_000;

pub const MICROS_PER_SEC: u64 = 1_000_000;

pub const NANOS_PER_MICRO: u64 = 1_000;

/// One FILETIME unit is 100 nanoseconds.
pub const NANOS_PER_FILETIME_UNIT: u64 = 100;

/// A `timespec`: seconds and nanoseconds, each signed.
#[derive(Clone, Copy, Debug, PartialEq, Eq, Structural)]
pub struct TimeSpec {
    pub sec: i64,
    pub nsec: i64,
}

/// A seconds + microseconds pair (`timeval`, mach's `time_value_t`), each signed.
#[derive(Clone, Copy, Debug, PartialEq, Eq, Structural)]
pub struct TimeVal {
    pub sec: i64,
    pub usec: i64,
}

/// A FILETIME: two 32-bit words of a count of 100-nanosecond units.
#[derive(Clone, Copy, Debug, PartialEq, Eq, Structural)]
pub struct FileTime {
    pub high: u32,
    pub low: u32,
}

/// A cumulative CPU-time counter as some platform reports it.
#[derive(Clone, Copy, Debug, PartialEq, Eq, Structural)]
#[allow(inconsistent_fields)]
pub enum RawTimeValue {
    /// A CPU-time clock read with `clock_gettime`.
    Spec(TimeSpec),
    /// User and system time, in seconds and microseconds.
    UserSystem { user: TimeVal, system: TimeVal },
    /// Kernel and user time, as FILETIMEs.
    KernelUser { kernel: FileTime, user: FileTime },
    /// A count of scheduler ticks, and the number of ticks per second.
    Ticks { ticks: u64, rate: u64 },
}

/// `x` when it is not negative, else zero.
pub open spec fn non_neg(x: int) -> int {
    if x < 0 {
        0
    } else {
        x
    }
}

/// The nearest `u64` to a non-negative `x`.
pub open spec fn saturate(x: int) -> u64 {
    if x > u64::MAX {
        u64::MAX
    } else if x < 0 {
        0
    } else {
        x as u64
    }
}

pub open spec fn filetime_units(f: FileTime) -> int {
    f.high * 0x1_0000_0000 + f.low
}

/// The value of a counter in nanoseconds, its fields taken as they are.
pub open spec fn nanos_of(raw: RawTimeValue) -> int {
    match raw {
        RawTimeValue::Spec(t) => t.sec * NANOS_PER_SEC + t.nsec,
        RawTimeValue::UserSystem { user, system } => (user.sec * MICROS_PER_SEC + user.usec
            + system.sec * MICROS_PER_SEC + system.usec) * NANOS_PER_MICRO,
        RawTimeValue::KernelUser { kernel, user } => (filetime_units(kernel) + filetime_units(
            user,
        )) * NANOS_PER_FILETIME_UNIT,
        RawTimeValue::Ticks { ticks, rate } => ticks * NANOS_PER_SEC / (rate as int),
    }
}

/// A counter whose signed fields are not negative and whose tick rate is positive.
pub open spec fn well_formed(raw: RawTimeValue) -> bool {
    match raw {
        RawTimeValue::Spec(t) => t.sec >= 0 && t.nsec >= 0,
        RawTimeValue::UserSystem { user, system } => user.sec >= 0 && user.usec >= 0
            && system.sec >= 0 && system.usec >= 0,
        RawTimeValue::KernelUser { .. } => true,
        RawTimeValue::Ticks { rate, .. } => rate > 0,
    }
}

/// What a counter normalises to: each negative field counts as zero, a zero tick
/// rate gives zero, and a value past `u64::MAX` stops there.
pub open spec fn normalized(raw: RawTimeValue) -> u64 {
    match raw {
        RawTimeValue::Spec(t) => saturate(non_neg(t.sec as int) * NANOS_PER_SEC + non_neg(t.nsec as int)),
        RawTimeValue::UserSystem { user, system } => saturate(
            (non_neg(user.sec as int) * MICROS_PER_SEC + non_neg(user.usec as int) + non_neg(system.sec as int)
                * MICROS_PER_SEC + non_neg(system.usec as int)) * NANOS_PER_MICRO,
        ),
        RawTimeValue::KernelUser { kernel, user } => saturate(
            (filetime_units(kernel) + filetime_units(user)) * NANOS_PER_FILETIME_UNIT,
        ),
        RawTimeValue::Ticks { ticks, rate } => if rate == 0 {
            0
        } else {
            saturate(ticks * NANOS_PER_SEC / (rate as int))
        },
    }
}

proof fn lemma_saturate_add(a: int, b: int)
    requires
        a >= 0,
        b >= 0,
    ensures
        saturate(saturate(a) + b) == saturate(a + b),
{
}

proof fn lemma_saturate_mul(a: int, k: int)
    requires
        a >= 0,
        k >= 1,
    ensures
        saturate(saturate(a) * k) == saturate(a * k),
{
    if a > u64::MAX {
        assert(a * k >= a) by (nonlinear_arith)
            requires
                a >= 0,
                k >= 1,
        ;
        assert(u64::MAX * k >= u64::MAX) by (nonlinear_arith)
            requires
                k >= 1,
        ;
    }
}

fn saturating_mul(a: u64, b: u64) -> (r: u64)
    ensures
        r == saturate(a * b),
{
    match a.checked_mul(b) {
        Some(p) => p,
        None => u64::MAX,
    }
}

fn non_neg_u64(x: i64) -> (r: u64)
    ensures
        r == non_neg(x as int),
{
    if x < 0 {
        0
    } else {
        x as u64
    }
}

/// Nanoseconds in a `timespec`, negative fields taken as zero, saturating at `u64::MAX`.
pub fn timespec_to_nanos(t: TimeSpec) -> (r: u64)
    ensures
        r == saturate(non_neg(t.sec as int) * NANOS_PER_SEC + non_neg(t.nsec as int)),
{
    let sec = non_neg_u64(t.sec);
    let nsec = non_neg_u64(t.nsec);
    let whole = saturating_mul(sec, NANOS_PER_SEC);
    proof {
        lemma_saturate_add(sec * NANOS_PER_SEC, nsec as int);
    }
    whole.saturating_add(nsec)
}

/// Microseconds in a seconds + microseconds pair, negative fields taken as zero,
/// saturating at `u64::MAX`.
pub fn time_value_to_micros(t: TimeVal) -> (r: u64)
    ensures
        r == saturate(non_neg(t.sec as int) * MICROS_PER_SEC + non_neg(t.usec as int)),
{
    let sec = non_neg_u64(t.sec);
    let usec = non_neg_u64(t.usec);
    let whole = saturating_mul(sec, MICROS_PER_SEC);
    proof {
        lemma_saturate_add(sec * MICROS_PER_SEC, usec as int);
    }
    whole.saturating_add(usec)
}

/// The count of 100-nanosecond units that the two words of a FILETIME hold.
pub fn filetime_to_ns100(f: FileTime) -> (r: u64)
    ensures
        r == filetime_units(f),
{
    assert(f.high * 0x1_0000_0000 + f.low <= u64::MAX) by (nonlinear_arith)
        requires
            f.high <= u32::MAX,
            f.low <= u32::MAX,
    ;
    (f.high as u64) * 0x1_0000_0000 + (f.low as u64)
}

/// Nanoseconds in `ticks` scheduler ticks at `rate` ticks per second, rounded down;
/// zero when the rate is zero; saturating at `u64::MAX`.
pub fn ticks_to_nanos(ticks: u64, rate: u64) -> (r: u64)
    ensures
        r == (if rate == 0 {
            0
        } else {
            saturate(ticks * NANOS_PER_SEC / (rate as int))
        }),
{
    if rate == 0 {
        return 0;
    }
    assert(ticks * NANOS_PER_SEC <= u128::MAX) by (nonlinear_arith)
        requires
            ticks <= u64::MAX,
    ;
    let total: u128 = (ticks as u128) * (NANOS_PER_SEC as u128);
    let nanos: u128 = total / (rate as u128);
    if nanos > u64::MAX as u128 {
        u64::MAX
    } else {
        nanos as u64
    }
}

/// Converts a native counter into nanoseconds.
pub fn normalize(raw: &RawTimeValue) -> (r: u64)
    ensures
        r == normalized(*raw),
{
    match *raw {
        RawTimeValue::Spec(t) => timespec_to_nanos(t),
        RawTimeValue::UserSystem { user, system } => {
            let u = time_value_to_micros(user);
            let s = time_value_to_micros(system);
            let ghost mu = non_neg(user.sec as int) * MICROS_PER_SEC + non_neg(user.usec as int);
            let ghost ms = non_neg(system.sec as int) * MICROS_PER_SEC + non_neg(system.usec as int);
            let micros = u.saturating_add(s);
            proof {
                lemma_saturate_add(ms, saturate(mu) as int);
                lemma_saturate_add(mu, ms);
                lemma_saturate_mul(mu + ms, NANOS_PER_MICRO as int);
            }
            saturating_mul(micros, NANOS_PER_MICRO)
        },
        RawTimeValue::KernelUser { kernel, user } => {
            let k = filetime_to_ns100(kernel);
            let u = filetime_to_ns100(user);
            let units = k.saturating_add(u);
            proof {
                lemma_saturate_mul(k + u, NANOS_PER_FILETIME_UNIT as int);
            }
            saturating_mul(units, NANOS_PER_FILETIME_UNIT)
        },
        RawTimeValue::Ticks { ticks, rate } => ticks_to_nanos(ticks, rate),
    }
}

/// On a well-formed counter, normalising gives its value in nanoseconds, stopped
/// at `u64::MAX`.
pub proof fn lemma_normalized_is_saturated_value(raw: RawTimeValue)
    requires
        well_formed(raw),
    ensures
        normalized(raw) == saturate(nanos_of(raw)),
{
    if let RawTimeValue::Ticks { ticks, rate } = raw {
        assert(ticks * NANOS_PER_SEC / (rate as int) >= 0) by (nonlinear_arith)
            requires
                ticks >= 0,
                rate > 0,
        ;
    }
}

/// Normalising is monotonic: of two well-formed counters, the one whose value in
/// nanoseconds is smaller normalises to no more than the other.
pub proof fn lemma_normalize_monotonic(a: RawTimeValue, b: RawTimeValue)
    requires
        well_formed(a),
        well_formed(b),
        nanos_of(a) <= nanos_of(b),
    ensures
        normalized(a) <= normalized(b),
{
    lemma_normalized_is_saturated_value(a);
    lemma_normalized_is_saturated_value(b);
}

} // verus!
