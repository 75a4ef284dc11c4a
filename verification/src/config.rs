//! The refresh cadence of each metric class, and the builder that sets it.
//!
//! Every class has an interval of its own. A class that is not configured
//! keeps a built-in default. The CPU interval is never shorter than the
//! sampler's settle time: a shorter request is raised to that floor.

use crate::interval::{Interval, NANOS_PER_MILLI, NANOS_PER_SEC};
use crate::store::MetricClass;
use vstd::prelude::*;

verus! {

/// The default pause between two memory refreshes, in seconds.
pub const DEFAULT_MEMORY_SECS: u64 = 10;

/// The default pause between two disk refreshes, in seconds.
pub const DEFAULT_DISK_SECS: u64 = 30;

/// The default pause between two network refreshes, in milliseconds.
pub const DEFAULT_NETWORK_MILLIS: u64 = 500;

/// `sysinfo`'s `SystemExt::MINIMUM_CPU_UPDATE_INTERVAL` for `System`, as
/// whole seconds and the nanoseconds below a second. The constant differs by
/// platform, so nothing is claimed about the span itself; the nanosecond
/// part is what `Duration::subsec_nanos` returns, which is below one second.
#[verifier::external_body]
fn platform_cpu_floor() -> (parts: (u64, u32))
    ensures
        parts.1 < NANOS_PER_SEC,
{
    let floor = <sysinfo::System as sysinfo::SystemExt>::MINIMUM_CPU_UPDATE_INTERVAL;
    (floor.as_secs(), floor.subsec_nanos())
}

/// The pause between two refreshes, for each metric class.
#[derive(Clone, Copy, Debug, PartialEq, Eq)]
pub struct Intervals {
    pub cpu: Interval,
    pub memory: Interval,
    pub network: Interval,
    pub disk: Interval,
}

impl Intervals {
    /// The interval of `class`.
    pub open spec fn spec_of(&self, class: MetricClass) -> Interval {
        match class {
            MetricClass::Cpu => self.cpu,
            MetricClass::Memory => self.memory,
            MetricClass::Network => self.network,
            MetricClass::Disk => self.disk,
        }
    }

    /// The interval of `class`.
    #[verifier::when_used_as_spec(spec_of)]
    pub fn of(&self, class: MetricClass) -> (interval: Interval)
        ensures
            interval == self.spec_of(class),
    {
        match class {
            MetricClass::Cpu => self.cpu,
            MetricClass::Memory => self.memory,
            MetricClass::Network => self.network,
            MetricClass::Disk => self.disk,
        }
    }

    /// Whether these are the built-in intervals for a sampler whose CPU
    /// settle time is `floor`: the floor itself for CPU, ten seconds for
    /// memory, half a second for network, thirty seconds for disk.
    pub open spec fn is_default_for(self, floor: Interval) -> bool {
        &&& self.cpu == floor
        &&& self.memory@ == DEFAULT_MEMORY_SECS * NANOS_PER_SEC
        &&& self.network@ == DEFAULT_NETWORK_MILLIS * NANOS_PER_MILLI
        &&& self.disk@ == DEFAULT_DISK_SECS * NANOS_PER_SEC
    }
}

/// A builder as a mathematical value.
pub ghost struct BuilderView {
    /// The shortest CPU interval the sampler supports.
    pub cpu_floor: Interval,
    /// The intervals chosen so far.
    pub intervals: Intervals,
}

/// Sets the refresh interval of each metric class before a monitor is made.
#[derive(Clone, Copy, Debug)]
pub struct IntervalsBuilder {
    cpu_floor: Interval,
    intervals: Intervals,
}

impl View for IntervalsBuilder {
    type V = BuilderView;

    closed spec fn view(&self) -> BuilderView {
        BuilderView { cpu_floor: self.cpu_floor, intervals: self.intervals }
    }
}

impl IntervalsBuilder {
    #[verifier::type_invariant]
    spec fn respects_floor(self) -> bool {
        self.cpu_floor@ <= self.intervals.cpu@
    }

    /// The built-in intervals for a sampler whose CPU settle time is
    /// `cpu_floor`.
    pub fn with_cpu_floor(cpu_floor: Interval) -> (builder: IntervalsBuilder)
        ensures
            builder@.cpu_floor == cpu_floor,
            builder@.intervals.is_default_for(cpu_floor),
    {
        IntervalsBuilder {
            cpu_floor,
            intervals: Intervals {
                cpu: cpu_floor,
                memory: Interval::from_secs(DEFAULT_MEMORY_SECS),
                network: Interval::from_millis(DEFAULT_NETWORK_MILLIS),
                disk: Interval::from_secs(DEFAULT_DISK_SECS),
            },
        }
    }

    /// The built-in intervals for the platform's own sampler, whose CPU
    /// settle time becomes the floor.
    pub fn new() -> (builder: IntervalsBuilder)
        ensures
            builder@.intervals.is_default_for(builder@.cpu_floor),
    {
        let (secs, nanos) = platform_cpu_floor();
        let floor = Interval::new(secs, nanos).unwrap();
        IntervalsBuilder::with_cpu_floor(floor)
    }

    /// Sets the CPU interval to `interval`, or to the floor where `interval`
    /// is shorter than the floor.
    pub fn cpu(self, interval: Interval) -> (builder: IntervalsBuilder)
        ensures
            builder@.cpu_floor == self@.cpu_floor,
            builder@.intervals == (Intervals {
                cpu: if self@.cpu_floor@ <= interval@ {
                    interval
                } else {
                    self@.cpu_floor
                },
                ..self@.intervals
            }),
    {
        let cpu = interval.at_least(self.cpu_floor);
        IntervalsBuilder {
            cpu_floor: self.cpu_floor,
            intervals: Intervals { cpu, ..self.intervals },
        }
    }

    /// Sets the memory interval.
    pub fn memory(self, interval: Interval) -> (builder: IntervalsBuilder)
        ensures
            builder@.cpu_floor == self@.cpu_floor,
            builder@.intervals == (Intervals { memory: interval, ..self@.intervals }),
    {
        proof {
            use_type_invariant(self);
        }
        IntervalsBuilder {
            cpu_floor: self.cpu_floor,
            intervals: Intervals { memory: interval, ..self.intervals },
        }
    }

    /// Sets the network interval.
    pub fn network(self, interval: Interval) -> (builder: IntervalsBuilder)
        ensures
            builder@.cpu_floor == self@.cpu_floor,
            builder@.intervals == (Intervals { network: interval, ..self@.intervals }),
    {
        proof {
            use_type_invariant(self);
        }
        IntervalsBuilder {
            cpu_floor: self.cpu_floor,
            intervals: Intervals { network: interval, ..self.intervals },
        }
    }

    /// Sets the disk interval.
    pub fn disk(self, interval: Interval) -> (builder: IntervalsBuilder)
        ensures
            builder@.cpu_floor == self@.cpu_floor,
            builder@.intervals == (Intervals { disk: interval, ..self@.intervals }),
    {
        proof {
            use_type_invariant(self);
        }
        IntervalsBuilder {
            cpu_floor: self.cpu_floor,
            intervals: Intervals { disk: interval, ..self.intervals },
        }
    }

    /// The shortest CPU interval this builder accepts.
    pub fn cpu_floor(&self) -> (floor: Interval)
        ensures
            floor == self@.cpu_floor,
    {
        self.cpu_floor
    }

    /// The intervals chosen. The CPU interval is not below the floor.
    pub fn build(self) -> (intervals: Intervals)
        ensures
            intervals == self@.intervals,
            self@.cpu_floor@ <= intervals.cpu@,
    {
        proof {
            use_type_invariant(self);
        }
        self.intervals
    }
}

impl Default for IntervalsBuilder {
    fn default() -> (builder: IntervalsBuilder)
        ensures
            builder@.intervals.is_default_for(builder@.cpu_floor),
    {
        IntervalsBuilder::new()
    }
}

} // verus!
