use perf_monitor::time::{
    filetime_to_ns100, normalize, ticks_to_nanos, time_value_to_micros, timespec_to_nanos,
    FileTime, RawTimeValue, TimeSpec, TimeVal,
};

#[test]
fn timespec_converts_exactly() {
    assert_eq!(timespec_to_nanos(TimeSpec { sec: 2, nsec: 5 }), 2_000_000_005);
    assert_eq!(timespec_to_nanos(TimeSpec { sec: 0, nsec: 0 }), 0);
    // a nanosecond field of a second or more carries into the total
    assert_eq!(timespec_to_nanos(TimeSpec { sec: 1, nsec: 1_500_000_000 }), 2_500_000_000);
}

#[test]
fn timespec_negative_fields_count_as_zero() {
    assert_eq!(timespec_to_nanos(TimeSpec { sec: -3, nsec: 7 }), 7);
    assert_eq!(timespec_to_nanos(TimeSpec { sec: 3, nsec: -7 }), 3_000_000_000);
    assert_eq!(timespec_to_nanos(TimeSpec { sec: -1, nsec: -1 }), 0);
}

#[test]
fn timespec_saturates() {
    assert_eq!(timespec_to_nanos(TimeSpec { sec: i64::MAX, nsec: 0 }), u64::MAX);
    assert_eq!(timespec_to_nanos(TimeSpec { sec: 18_446_744_073, nsec: 709_551_615 }), u64::MAX);
    assert_eq!(timespec_to_nanos(TimeSpec { sec: 18_446_744_073, nsec: 709_551_614 }), u64::MAX - 1);
}

#[test]
fn time_value_converts_to_micros() {
    assert_eq!(time_value_to_micros(TimeVal { sec: 3, usec: 250 }), 3_000_250);
    assert_eq!(time_value_to_micros(TimeVal { sec: 3, usec: -250 }), 3_000_000);
    assert_eq!(time_value_to_micros(TimeVal { sec: i64::MAX, usec: 1 }), u64::MAX);
}

#[test]
fn filetime_joins_words() {
    assert_eq!(filetime_to_ns100(FileTime { high: 0, low: 7 }), 7);
    assert_eq!(filetime_to_ns100(FileTime { high: 1, low: 2 }), 4_294_967_298);
    assert_eq!(filetime_to_ns100(FileTime { high: u32::MAX, low: u32::MAX }), u64::MAX);
}

#[test]
fn ticks_scale_by_rate() {
    assert_eq!(ticks_to_nanos(250, 100), 2_500_000_000);
    assert_eq!(ticks_to_nanos(1, 3), 333_333_333);
    assert_eq!(ticks_to_nanos(5, 0), 0);
    assert_eq!(ticks_to_nanos(u64::MAX, 1), u64::MAX);
}

#[test]
fn normalize_each_kind() {
    assert_eq!(normalize(&RawTimeValue::Spec(TimeSpec { sec: 1, nsec: 20 })), 1_000_000_020);
    let pair = RawTimeValue::UserSystem {
        user: TimeVal { sec: 1, usec: 5 },
        system: TimeVal { sec: 2, usec: 7 },
    };
    assert_eq!(normalize(&pair), 3_000_012_000);
    let filetimes = RawTimeValue::KernelUser {
        kernel: FileTime { high: 0, low: 30 },
        user: FileTime { high: 0, low: 12 },
    };
    assert_eq!(normalize(&filetimes), 4_200);
    assert_eq!(normalize(&RawTimeValue::Ticks { ticks: 3, rate: 100 }), 30_000_000);
    assert_eq!(normalize(&RawTimeValue::Ticks { ticks: 3, rate: 0 }), 0);
}

#[test]
fn normalize_saturates_each_kind() {
    let pair = RawTimeValue::UserSystem {
        user: TimeVal { sec: i64::MAX, usec: 0 },
        system: TimeVal { sec: 1, usec: 0 },
    };
    assert_eq!(normalize(&pair), u64::MAX);
    let filetimes = RawTimeValue::KernelUser {
        kernel: FileTime { high: u32::MAX, low: 0 },
        user: FileTime { high: 0, low: 1 },
    };
    assert_eq!(normalize(&filetimes), u64::MAX);
}

#[test]
fn normalize_is_monotonic_on_examples() {
    let values = [
        RawTimeValue::Spec(TimeSpec { sec: 0, nsec: 999_999_999 }),
        RawTimeValue::Spec(TimeSpec { sec: 1, nsec: 0 }),
        RawTimeValue::Spec(TimeSpec { sec: 1, nsec: 1 }),
        RawTimeValue::Spec(TimeSpec { sec: 40, nsec: 0 }),
        RawTimeValue::Spec(TimeSpec { sec: i64::MAX, nsec: 0 }),
    ];
    for w in values.windows(2) {
        assert!(normalize(&w[0]) <= normalize(&w[1]));
    }
    let a = RawTimeValue::Ticks { ticks: 10, rate: 100 };
    let b = RawTimeValue::Ticks { ticks: 11, rate: 100 };
    assert!(normalize(&a) <= normalize(&b));
}
