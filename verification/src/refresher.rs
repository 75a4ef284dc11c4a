//! One refresher per metric class: what a sampling cycle does to the store
//! and what the refresher does next.
//!
//! The embedding program runs the loop. It samples the operating system,
//! hands the outcome to [`Refresher::cycle`] while it holds the store for
//! writing, and then sleeps or stops as the answer says.

use crate::interval::Interval;
use crate::store::{MetricClass, Snapshot, SnapshotStore, SnapshotView, StoreView};
use vstd::prelude::*;

verus! {

/// Why a sampling cycle brought no reading.
#[derive(Clone, Copy, Debug, PartialEq, Eq, Structural)]
pub enum SampleError {
    /// This cycle failed; a later one may succeed.
    Failed,
    /// The sampler can no longer be used for this class.
    Exhausted,
}

/// What a refresher does after a cycle.
#[derive(Clone, Copy, Debug, PartialEq, Eq)]
pub enum Next {
    /// Wait this long, then sample again.
    Sleep(Interval),
    /// Leave the loop; the class keeps its last reading.
    Stop,
}

/// The outcome of a sampling cycle as a mathematical value.
pub open spec fn outcome_view(outcome: Result<Snapshot, SampleError>) -> Result<
    SnapshotView,
    SampleError,
> {
    match outcome {
        Ok(snapshot) => Ok(snapshot@),
        Err(error) => Err(error),
    }
}

/// A refresher as a mathematical value.
pub ghost struct RefresherView {
    /// The one class this refresher writes.
    pub class: MetricClass,
    /// The pause between two cycles.
    pub interval: Interval,
    /// Whether the sampler is still usable for this class.
    pub live: bool,
}

impl RefresherView {
    /// Whether a cycle with this outcome writes the store: the refresher is
    /// live and the cycle brought a reading of the refresher's own class.
    pub open spec fn accepts(self, outcome: Result<SnapshotView, SampleError>) -> bool {
        &&& self.live
        &&& outcome matches Ok(snapshot)
        &&& snapshot.class() == self.class
    }

    /// The store after a cycle: the reading installed where the cycle is
    /// accepted, the store as it was otherwise.
    pub open spec fn store_after(
        self,
        store: StoreView,
        outcome: Result<SnapshotView, SampleError>,
    ) -> StoreView {
        if self.accepts(outcome) {
            store.install(outcome->Ok_0)
        } else {
            store
        }
    }

    /// The refresher after a cycle: it stays live unless the sampler is
    /// exhausted, and never becomes live again.
    pub open spec fn after(self, outcome: Result<SnapshotView, SampleError>) -> RefresherView {
        RefresherView {
            live: self.live && outcome != Err::<SnapshotView, SampleError>(
                SampleError::Exhausted,
            ),
            ..self
        }
    }

    /// What follows a cycle: a pause of the configured length while the
    /// refresher is live, the end of the loop once it is not.
    pub open spec fn next(self, outcome: Result<SnapshotView, SampleError>) -> Next {
        if self.after(outcome).live {
            Next::Sleep(self.interval)
        } else {
            Next::Stop
        }
    }
}

/// The refresher of one metric class.
#[derive(Debug)]
pub struct Refresher {
    class: MetricClass,
    interval: Interval,
    live: bool,
}

impl View for Refresher {
    type V = RefresherView;

    closed spec fn view(&self) -> RefresherView {
        RefresherView { class: self.class, interval: self.interval, live: self.live }
    }
}

impl Refresher {
    /// A live refresher for `class` that pauses `interval` between cycles.
    pub fn new(class: MetricClass, interval: Interval) -> (refresher: Refresher)
        ensures
            refresher@ == (RefresherView { class, interval, live: true }),
    {
        Refresher { class, interval, live: true }
    }

    /// The class this refresher writes.
    pub fn class(&self) -> (class: MetricClass)
        ensures
            class == self@.class,
    {
        self.class
    }

    /// The pause between two cycles.
    pub fn interval(&self) -> (interval: Interval)
        ensures
            interval == self@.interval,
    {
        self.interval
    }

    /// Whether the refresher still takes readings.
    pub fn is_live(&self) -> (live: bool)
        ensures
            live == self@.live,
    {
        self.live
    }

    /// Completes one cycle with what the sampler returned.
    ///
    /// A reading of this refresher's class replaces that class in the store.
    /// A failed cycle, or a reading of another class, leaves the store as it
    /// is. An exhausted sampler also ends the refresher for good: from then on
    /// every cycle leaves the store as it is and answers `Stop`.
    pub fn cycle(&mut self, store: &mut SnapshotStore, outcome: Result<Snapshot, SampleError>) -> (next:
        Next)
        ensures
            final(store)@ == old(self)@.store_after(old(store)@, outcome_view(outcome)),
            final(self)@ == old(self)@.after(outcome_view(outcome)),
            next == old(self)@.next(outcome_view(outcome)),
    {
        if !self.live {
            return Next::Stop;
        }
        match outcome {
            Ok(snapshot) => {
                if snapshot.class() == self.class {
                    store.install(snapshot);
                }
                Next::Sleep(self.interval)
            },
            Err(SampleError::Failed) => Next::Sleep(self.interval),
            Err(SampleError::Exhausted) => {
                self.live = false;
                Next::Stop
            },
        }
    }
}

} // verus!
