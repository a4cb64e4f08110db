//! Samples of (CPU time, wall time), the usage between two of them, and the
//! sampler that keeps the most recent one.

use vstd::prelude::*;

use crate::time::{normalize, normalized, RawTimeValue};

verus! {

/// One reading of a subject: its cumulative CPU time and a monotonic wall-clock
/// instant, both in nanoseconds.
#[derive(Clone, Copy, Debug, PartialEq, Eq, Structural)]
pub struct Sample {
    pub work_nanos: u64,
    pub wall_nanos: u64,
}

impl Sample {
    /// A sample from a native CPU-time counter and a wall-clock instant.
    pub fn new(work: &RawTimeValue, wall_nanos: u64) -> (s: Sample)
        ensures
            s.work_nanos == normalized(*work),
            s.wall_nanos == wall_nanos,
    {
        Sample { work_nanos: normalize(work), wall_nanos }
    }
}

/// `a - b`, or zero when `b` is the larger.
pub open spec fn saturating_diff(a: u64, b: u64) -> nat {
    if a >= b {
        (a - b) as nat
    } else {
        0
    }
}

/// CPU time that the subject consumed from `old` to `new`; a counter that went
/// backwards counts as none.
pub open spec fn consumed_nanos(old: Sample, new: Sample) -> nat {
    saturating_diff(new.work_nanos, old.work_nanos)
}

/// Wall time from `old` to `new`; a clock that went backwards counts as none.
pub open spec fn elapsed_nanos(old: Sample, new: Sample) -> nat {
    saturating_diff(new.wall_nanos, old.wall_nanos)
}

/// The usage from `old` to `new` as a fraction (numerator, denominator): CPU time
/// over wall time, and zero when no wall time has elapsed.
pub open spec fn usage_fraction(old: Sample, new: Sample) -> (nat, nat) {
    if elapsed_nanos(old, new) == 0 {
        (0, 1)
    } else {
        (consumed_nanos(old, new), elapsed_nanos(old, new))
    }
}

/// A usage ratio, held exactly as CPU nanoseconds over wall nanoseconds. It is
/// not divided by the number of processors, so it exceeds one when the subject
/// ran on several cores at once. Its denominator is never zero.
#[derive(Clone, Copy, Debug)]
pub struct UsageRatio {
    numer: u64,
    denom: u64,
}

impl View for UsageRatio {
    type V = (nat, nat);

    closed spec fn view(&self) -> (nat, nat) {
        (self.numer as nat, self.denom as nat)
    }
}

impl UsageRatio {
    #[verifier::type_invariant]
    spec fn denominator_positive(self) -> bool {
        self.denom > 0
    }

    /// CPU nanoseconds.
    pub fn numerator(&self) -> (r: u64)
        ensures
            r == self@.0,
    {
        self.numer
    }

    /// Wall nanoseconds; never zero.
    pub fn denominator(&self) -> (r: u64)
        ensures
            r == self@.1,
            r > 0,
    {
        proof {
            use_type_invariant(self);
        }
        self.denom
    }

    /// Whether the ratio is zero.
    pub fn is_zero(&self) -> (r: bool)
        ensures
            r == (self@.0 == 0),
    {
        self.numer == 0
    }
}

/// CPU time consumed from `old` to `new`, in nanoseconds.
pub fn cpu_time_between(old: &Sample, new: &Sample) -> (r: u64)
    ensures
        r == consumed_nanos(*old, *new),
{
    new.work_nanos.saturating_sub(old.work_nanos)
}

/// The usage ratio from `old` to `new`: zero when no wall time elapsed, else CPU
/// time over wall time.
pub fn usage_between(old: &Sample, new: &Sample) -> (r: UsageRatio)
    ensures
        r@ == usage_fraction(*old, *new),
{
    let work = new.work_nanos.saturating_sub(old.work_nanos);
    let wall = new.wall_nanos.saturating_sub(old.wall_nanos);
    if wall == 0 {
        UsageRatio { numer: 0, denom: 1 }
    } else {
        UsageRatio { numer: work, denom: wall }
    }
}

/// Whether a sampler has computed a delta yet.
#[derive(Clone, Copy, Debug, PartialEq, Eq, Structural)]
pub enum Phase {
    /// Holds the sample it was created with; no delta computed yet.
    Fresh,
    /// Has computed at least one delta.
    Warm,
}

/// The state shared by thread and process monitors: the most recent sample, from
/// which the next delta is measured.
#[derive(Clone, Copy, Debug)]
pub struct Sampler {
    last: Sample,
    phase: Phase,
}

impl Sampler {
    pub closed spec fn spec_last(&self) -> Sample {
        self.last
    }

    pub closed spec fn spec_phase(&self) -> Phase {
        self.phase
    }

    /// A fresh sampler holding `first`.
    pub closed spec fn new_spec(first: Sample) -> Sampler {
        Sampler { last: first, phase: Phase::Fresh }
    }

    /// The state after a delta up to `next`.
    pub closed spec fn after(self, next: Sample) -> Sampler {
        Sampler { last: next, phase: Phase::Warm }
    }

    /// A fresh sampler holding its first sample.
    pub fn new(first: Sample) -> (s: Sampler)
        ensures
            s == Sampler::new_spec(first),
            s.spec_last() == first,
            s.spec_phase() == Phase::Fresh,
    {
        Sampler { last: first, phase: Phase::Fresh }
    }

    /// The most recent sample.
    pub fn last(&self) -> (r: Sample)
        ensures
            r == self.spec_last(),
    {
        self.last
    }

    /// Whether a delta has been computed yet.
    pub fn phase(&self) -> (r: Phase)
        ensures
            r == self.spec_phase(),
    {
        self.phase
    }

    /// The usage ratio from the stored sample to `next`; `next` is then stored.
    pub fn usage_ratio(&mut self, next: Sample) -> (r: UsageRatio)
        ensures
            r@ == usage_fraction(old(self).spec_last(), next),
            *final(self) == old(self).after(next),
            final(self).spec_last() == next,
            final(self).spec_phase() == Phase::Warm,
    {
        let r = usage_between(&self.last, &next);
        self.last = next;
        self.phase = Phase::Warm;
        r
    }

    /// CPU time consumed from the stored sample to `next`, in nanoseconds; `next` is
    /// then stored.
    pub fn cpu_time_consumed(&mut self, next: Sample) -> (r: u64)
        ensures
            r == consumed_nanos(old(self).spec_last(), next),
            *final(self) == old(self).after(next),
            final(self).spec_last() == next,
            final(self).spec_phase() == Phase::Warm,
    {
        let r = cpu_time_between(&self.last, &next);
        self.last = next;
        self.phase = Phase::Warm;
        r
    }
}

/// The usage between any two samples is a fraction with a positive denominator,
/// and it is exactly zero when no wall time elapsed between them (two samples
/// taken at the same instant, or a clock that went backwards).
pub proof fn lemma_usage_is_defined(old: Sample, new: Sample)
    ensures
        usage_fraction(old, new).1 > 0,
        new.wall_nanos <= old.wall_nanos ==> usage_fraction(old, new) == (0nat, 1nat),
{
}

/// A sampler created with `first` and then asked for the CPU time consumed up to
/// `next` reports no more than the counter advanced in between: nothing when the
/// counter did not advance, at most `slack` when it advanced by at most `slack`.
pub proof fn lemma_fresh_sampler_consumed(first: Sample, next: Sample, slack: nat)
    requires
        next.work_nanos <= first.work_nanos + slack,
    ensures
        Sampler::new_spec(first).spec_last() == first,
        consumed_nanos(Sampler::new_spec(first).spec_last(), next) <= slack,
        next.work_nanos <= first.work_nanos ==> consumed_nanos(
            Sampler::new_spec(first).spec_last(),
            next,
        ) == 0,
{
}

/// Once a sampler has taken sample `s`, taking the same sample again gives a usage
/// of zero, whatever its state before.
pub proof fn lemma_repeated_sample_is_idle(before: Sampler, s: Sample)
    ensures
        usage_fraction(before.after(s).spec_last(), s) == (0nat, 1nat),
        consumed_nanos(before.after(s).spec_last(), s) == 0,
{
}

} // verus!
