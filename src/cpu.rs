//! CPU usage of the current process and of given threads.
//!
//! Each monitor keeps the most recent sample of its subject. A caller reads the
//! subject's CPU-time counter and a monotonic instant, and hands the reading to
//! the monitor, or the error that reading it gave: on an error the monitor is
//! left as it was and the error is returned unchanged.
//!
//! The ratios are unnormalised: on a machine with several processors a value
//! above one means that more than one core's worth of time was used. Callers who
//! want a share of the whole machine divide by the number of processors.

use vstd::prelude::*;

use crate::time::{normalize, normalized, RawTimeValue};
use crate::usage::{consumed_nanos, usage_fraction, Phase, Sample, Sampler, UsageRatio};

verus! {

/// An operating-system thread identifier, valid for the threads of this process.
#[derive(Clone, Copy, Debug, PartialEq, Eq, Structural)]
pub struct ThreadId(pub u64);

/// The cumulative CPU time of the current process, in nanoseconds, from a reading
/// of its counter.
pub fn cpu_time<E>(reading: Result<RawTimeValue, E>) -> (r: Result<u64, E>)
    ensures
        match reading {
            Ok(raw) => r == Ok::<u64, E>(normalized(raw)),
            Err(e) => r == Err::<u64, E>(e),
        },
{
    match reading {
        Ok(raw) => Ok(normalize(&raw)),
        Err(e) => Err(e),
    }
}

/// A monitor of the CPU usage of the current process.
#[derive(Clone, Copy, Debug)]
pub struct ProcessStat {
    sampler: Sampler,
}

impl ProcessStat {
    pub closed spec fn spec_sampler(&self) -> Sampler {
        self.sampler
    }

    /// A monitor that starts from the first reading.
    pub fn cur<E>(reading: Result<Sample, E>) -> (r: Result<ProcessStat, E>)
        ensures
            match reading {
                Ok(s) => {
                    &&& r is Ok
                    &&& r->Ok_0.spec_sampler() == Sampler::new_spec(s)
                    &&& r->Ok_0.spec_sampler().spec_last() == s
                    &&& r->Ok_0.spec_sampler().spec_phase() == Phase::Fresh
                },
                Err(e) => r is Err && r->Err_0 == e,
            },
    {
        match reading {
            Ok(s) => Ok(ProcessStat { sampler: Sampler::new(s) }),
            Err(e) => Err(e),
        }
    }

    /// The most recent sample.
    pub fn last(&self) -> (r: Sample)
        ensures
            r == self.spec_sampler().spec_last(),
    {
        self.sampler.last()
    }

    /// Whether a delta has been computed yet.
    pub fn phase(&self) -> (r: Phase)
        ensures
            r == self.spec_sampler().spec_phase(),
    {
        self.sampler.phase()
    }

    /// The usage since the previous reading, or since the monitor was created.
    pub fn cpu<E>(&mut self, reading: Result<Sample, E>) -> (r: Result<UsageRatio, E>)
        ensures
            match reading {
                Ok(s) => {
                    &&& r is Ok
                    &&& r->Ok_0@ == usage_fraction(old(self).spec_sampler().spec_last(), s)
                    &&& final(self).spec_sampler() == old(self).spec_sampler().after(s)
                    &&& final(self).spec_sampler().spec_last() == s
                    &&& final(self).spec_sampler().spec_phase() == Phase::Warm
                },
                Err(e) => r is Err && r->Err_0 == e && *final(self) == *old(self),
            },
    {
        match reading {
            Ok(s) => Ok(self.sampler.usage_ratio(s)),
            Err(e) => Err(e),
        }
    }

    /// The CPU time consumed since the previous reading, or since the monitor was
    /// created, in nanoseconds.
    pub fn cpu_time<E>(&mut self, reading: Result<Sample, E>) -> (r: Result<u64, E>)
        ensures
            match reading {
                Ok(s) => {
                    &&& r == Ok::<u64, E>(consumed_nanos(old(self).spec_sampler().spec_last(), s) as u64)
                    &&& final(self).spec_sampler() == old(self).spec_sampler().after(s)
                    &&& final(self).spec_sampler().spec_last() == s
                    &&& final(self).spec_sampler().spec_phase() == Phase::Warm
                },
                Err(e) => r == Err::<u64, E>(e) && *final(self) == *old(self),
            },
    {
        match reading {
            Ok(s) => Ok(self.sampler.cpu_time_consumed(s)),
            Err(e) => Err(e),
        }
    }
}

/// A monitor of the CPU usage of one thread.
#[derive(Clone, Copy, Debug)]
pub struct ThreadStat {
    tid: ThreadId,
    sampler: Sampler,
}

impl ThreadStat {
    pub closed spec fn spec_tid(&self) -> ThreadId {
        self.tid
    }

    pub closed spec fn spec_sampler(&self) -> Sampler {
        self.sampler
    }

    /// A monitor of thread `tid` that starts from the first reading of it.
    pub fn build<E>(tid: ThreadId, reading: Result<Sample, E>) -> (r: Result<ThreadStat, E>)
        ensures
            match reading {
                Ok(s) => {
                    &&& r is Ok
                    &&& r->Ok_0.spec_tid() == tid
                    &&& r->Ok_0.spec_sampler() == Sampler::new_spec(s)
                    &&& r->Ok_0.spec_sampler().spec_last() == s
                    &&& r->Ok_0.spec_sampler().spec_phase() == Phase::Fresh
                },
                Err(e) => r is Err && r->Err_0 == e,
            },
    {
        match reading {
            Ok(s) => Ok(ThreadStat { tid, sampler: Sampler::new(s) }),
            Err(e) => Err(e),
        }
    }

    /// The thread this monitor reads.
    pub fn tid(&self) -> (r: ThreadId)
        ensures
            r == self.spec_tid(),
    {
        self.tid
    }

    /// The most recent sample.
    pub fn last(&self) -> (r: Sample)
        ensures
            r == self.spec_sampler().spec_last(),
    {
        self.sampler.last()
    }

    /// Whether a delta has been computed yet.
    pub fn phase(&self) -> (r: Phase)
        ensures
            r == self.spec_sampler().spec_phase(),
    {
        self.sampler.phase()
    }

    /// The usage since the previous reading, or since the monitor was created.
    pub fn cpu<E>(&mut self, reading: Result<Sample, E>) -> (r: Result<UsageRatio, E>)
        ensures
            final(self).spec_tid() == old(self).spec_tid(),
            match reading {
                Ok(s) => {
                    &&& r is Ok
                    &&& r->Ok_0@ == usage_fraction(old(self).spec_sampler().spec_last(), s)
                    &&& final(self).spec_sampler() == old(self).spec_sampler().after(s)
                    &&& final(self).spec_sampler().spec_last() == s
                    &&& final(self).spec_sampler().spec_phase() == Phase::Warm
                },
                Err(e) => r is Err && r->Err_0 == e && *final(self) == *old(self),
            },
    {
        match reading {
            Ok(s) => Ok(self.sampler.usage_ratio(s)),
            Err(e) => Err(e),
        }
    }

    /// The CPU time, user and system, consumed since the previous reading, or since
    /// the monitor was created, in nanoseconds.
    pub fn cpu_time<E>(&mut self, reading: Result<Sample, E>) -> (r: Result<u64, E>)
        ensures
            final(self).spec_tid() == old(self).spec_tid(),
            match reading {
                Ok(s) => {
                    &&& r == Ok::<u64, E>(consumed_nanos(old(self).spec_sampler().spec_last(), s) as u64)
                    &&& final(self).spec_sampler() == old(self).spec_sampler().after(s)
                    &&& final(self).spec_sampler().spec_last() == s
                    &&& final(self).spec_sampler().spec_phase() == Phase::Warm
                },
                Err(e) => r == Err::<u64, E>(e) && *final(self) == *old(self),
            },
    {
        match reading {
            Ok(s) => Ok(self.sampler.cpu_time_consumed(s)),
            Err(e) => Err(e),
        }
    }
}

} // verus!
