use perf_monitor::cpu::{cpu_time, ProcessStat, ThreadId, ThreadStat};
use perf_monitor::time::{RawTimeValue, TimeSpec};
use perf_monitor::usage::{cpu_time_between, usage_between, Phase, Sample, Sampler, UsageRatio};

const SEC: u64 = 1_000_000_000;

fn sample(work_nanos: u64, wall_nanos: u64) -> Sample {
    Sample { work_nanos, wall_nanos }
}

fn as_f64(r: &UsageRatio) -> f64 {
    r.numerator() as f64 / r.denominator() as f64
}

#[test]
fn usage_between_is_exact() {
    let r = usage_between(&sample(10, 100), &sample(60, 200));
    assert_eq!((r.numerator(), r.denominator()), (50, 100));
    assert_eq!(as_f64(&r), 0.5);
    assert_eq!(cpu_time_between(&sample(10, 100), &sample(60, 200)), 50);
}

#[test]
fn zero_elapsed_gives_exactly_zero() {
    let r = usage_between(&sample(10, 500), &sample(90, 500));
    assert_eq!((r.numerator(), r.denominator()), (0, 1));
    assert!(r.is_zero());
    assert_eq!(as_f64(&r), 0.0);
}

#[test]
fn backwards_clock_gives_zero() {
    let r = usage_between(&sample(10, 500), &sample(90, 400));
    assert_eq!((r.numerator(), r.denominator()), (0, 1));
}

#[test]
fn backwards_counter_counts_as_none() {
    let r = usage_between(&sample(90, 100), &sample(10, 300));
    assert_eq!((r.numerator(), r.denominator()), (0, 200));
    assert_eq!(cpu_time_between(&sample(90, 100), &sample(10, 300)), 0);
}

#[test]
fn idle_subject_reads_near_zero() {
    let mut stat = ThreadStat::build::<()>(ThreadId(7), Ok(sample(5 * SEC, 100 * SEC))).unwrap();
    let usage = stat.cpu::<()>(Ok(sample(5 * SEC + 20_000, 101 * SEC))).unwrap();
    let value = as_f64(&usage);
    assert!(value >= 0.0 && value < 0.05);
}

#[test]
fn busy_single_core_approaches_one() {
    let mut stat = ProcessStat::cur::<()>(Ok(sample(2 * SEC, 10 * SEC))).unwrap();
    let usage = stat.cpu::<()>(Ok(sample(2 * SEC + 990_000_000, 11 * SEC))).unwrap();
    assert!(as_f64(&usage) > 0.8);
}

#[test]
fn multi_core_usage_scales_with_threads() {
    let threads: u64 = 4;
    let mut stat = ProcessStat::cur::<()>(Ok(sample(0, 10 * SEC))).unwrap();
    let usage = stat.cpu::<()>(Ok(sample(threads * SEC - 1_000, 11 * SEC))).unwrap();
    assert!(as_f64(&usage) > 0.9 * threads as f64);
    assert_eq!(usage.numerator(), threads * SEC - 1_000);
    assert_eq!(usage.denominator(), SEC);
}

#[test]
fn fresh_then_cpu_time_is_zero() {
    let first = sample(3 * SEC, 7 * SEC);
    let mut stat = ThreadStat::build::<()>(ThreadId(1), Ok(first)).unwrap();
    assert_eq!(stat.phase(), Phase::Fresh);
    assert_eq!(stat.cpu_time::<()>(Ok(sample(3 * SEC, 7 * SEC + 40))), Ok(0));
    assert_eq!(stat.phase(), Phase::Warm);
    let mut process = ProcessStat::cur::<()>(Ok(first)).unwrap();
    assert_eq!(process.cpu_time::<()>(Ok(first)), Ok(0));
}

#[test]
fn repeated_identical_sample_is_zero() {
    let mut stat = ProcessStat::cur::<()>(Ok(sample(0, 0))).unwrap();
    let s = sample(4 * SEC, 9 * SEC);
    let first = stat.cpu::<()>(Ok(s)).unwrap();
    assert_eq!((first.numerator(), first.denominator()), (4 * SEC, 9 * SEC));
    let second = stat.cpu::<()>(Ok(s)).unwrap();
    assert!(second.is_zero());
    assert_eq!(as_f64(&second), 0.0);
}

#[test]
fn error_leaves_state_unchanged() {
    let first = sample(SEC, 2 * SEC);
    let mut stat = ThreadStat::build::<i32>(ThreadId(9), Ok(first)).unwrap();
    assert_eq!(stat.cpu(Err(13)).unwrap_err(), 13);
    assert_eq!(stat.last(), first);
    assert_eq!(stat.phase(), Phase::Fresh);
    assert_eq!(stat.cpu_time(Err(2)), Err(2));
    assert_eq!(stat.last(), first);
    assert_eq!(stat.tid(), ThreadId(9));
    let usage = stat.cpu::<i32>(Ok(sample(2 * SEC, 4 * SEC))).unwrap();
    assert_eq!((usage.numerator(), usage.denominator()), (SEC, 2 * SEC));
    assert_eq!(stat.last(), sample(2 * SEC, 4 * SEC));
}

#[test]
fn construction_error_propagates() {
    assert!(ThreadStat::build::<&str>(ThreadId(3), Err("gone")).is_err());
    assert_eq!(ProcessStat::cur::<u8>(Err(4)).unwrap_err(), 4);
}

#[test]
fn process_stat_tracks_last_sample() {
    let mut stat = ProcessStat::cur::<()>(Ok(sample(1, 2))).unwrap();
    assert_eq!(stat.last(), sample(1, 2));
    let _ = stat.cpu_time::<()>(Ok(sample(11, 12)));
    assert_eq!(stat.last(), sample(11, 12));
    let mut process = ProcessStat::cur::<i32>(Ok(sample(1, 2))).unwrap();
    assert_eq!(process.cpu(Err(5)).unwrap_err(), 5);
    assert_eq!(process.last(), sample(1, 2));
}

#[test]
fn sampler_stores_each_sample() {
    let mut s = Sampler::new(sample(0, 0));
    assert_eq!(s.phase(), Phase::Fresh);
    let r = s.usage_ratio(sample(SEC / 2, SEC));
    assert_eq!(as_f64(&r), 0.5);
    assert_eq!(s.last(), sample(SEC / 2, SEC));
    assert_eq!(s.cpu_time_consumed(sample(SEC, 2 * SEC)), SEC / 2);
    assert_eq!(s.phase(), Phase::Warm);
}

#[test]
fn sample_from_raw_counter() {
    let s = Sample::new(&RawTimeValue::Spec(TimeSpec { sec: 2, nsec: 3 }), 77);
    assert_eq!(s, sample(2_000_000_003, 77));
}

#[test]
fn process_cpu_time_normalizes_reading() {
    let raw = RawTimeValue::Spec(TimeSpec { sec: 1, nsec: 500 });
    assert_eq!(cpu_time::<()>(Ok(raw)), Ok(1_000_000_500));
    assert_eq!(cpu_time::<i32>(Err(11)), Err(11));
}

#[test]
fn consecutive_cpu_times_add_up() {
    let mut stat = ThreadStat::build::<()>(ThreadId(2), Ok(sample(SEC, 0))).unwrap();
    let a = stat.cpu_time::<()>(Ok(sample(SEC + 300, 10))).unwrap();
    let b = stat.cpu_time::<()>(Ok(sample(SEC + 1_000, 20))).unwrap();
    assert_eq!(a + b, 1_000);
    assert_eq!(stat.last(), sample(SEC + 1_000, 20));
}

#[test]
fn busy_after_idle_measures_from_stored_sample() {
    let mut stat = ThreadStat::build::<()>(ThreadId(4), Ok(sample(0, 0))).unwrap();
    let idle = stat.cpu::<()>(Ok(sample(1_000, SEC))).unwrap();
    assert!(as_f64(&idle) < 0.01);
    let busy = stat.cpu::<()>(Ok(sample(1_000 + 900_000_000, 2 * SEC))).unwrap();
    assert!(as_f64(&busy) > 0.5);
    assert_eq!((busy.numerator(), busy.denominator()), (900_000_000, SEC));
}

#[test]
fn zero_elapsed_still_stores_sample() {
    let mut stat = ProcessStat::cur::<()>(Ok(sample(5, 50))).unwrap();
    let r = stat.cpu::<()>(Ok(sample(9, 50))).unwrap();
    assert!(r.is_zero());
    assert_eq!(stat.last(), sample(9, 50));
    assert_eq!(stat.phase(), Phase::Warm);
}
