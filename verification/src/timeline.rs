//! The monitor over time.
//!
//! The store's lock puts the cycles of the four refreshers into one order.
//! This module models a run as that sequence of cycles, each applied as
//! [`Refresher::cycle`](crate::refresher::Refresher::cycle) applies it, and
//! proves what the store holds after any run. A query reads the store between
//! two cycles, so what holds of the store after every run holds of every
//! reply.

use crate::config::Intervals;
use crate::refresher::{Next, RefresherView, SampleError};
use crate::store::{MetricClass, SnapshotView, StoreView};
use vstd::prelude::*;

verus! {

/// One completed cycle: which refresher ran and what the sampler returned.
pub ghost struct Cycle {
    pub class: MetricClass,
    pub outcome: Result<SnapshotView, SampleError>,
}

impl Cycle {
    /// Whether the cycle brought a reading of its refresher's class.
    pub open spec fn brings_reading(self) -> bool {
        self.outcome matches Ok(snapshot) && snapshot.class() == self.class
    }

    /// Whether the cycle found the sampler exhausted.
    pub open spec fn exhausts(self) -> bool {
        self.outcome == Err::<SnapshotView, SampleError>(SampleError::Exhausted)
    }
}

/// The store and its four refreshers as a mathematical value.
pub ghost struct MonitorView {
    pub store: StoreView,
    pub cpu: RefresherView,
    pub memory: RefresherView,
    pub network: RefresherView,
    pub disk: RefresherView,
}

impl MonitorView {
    /// A monitor as it is made: a blank store and four live refreshers.
    pub open spec fn start(intervals: Intervals) -> MonitorView {
        MonitorView {
            store: StoreView::blank(),
            cpu: RefresherView { class: MetricClass::Cpu, interval: intervals.cpu, live: true },
            memory: RefresherView {
                class: MetricClass::Memory,
                interval: intervals.memory,
                live: true,
            },
            network: RefresherView {
                class: MetricClass::Network,
                interval: intervals.network,
                live: true,
            },
            disk: RefresherView { class: MetricClass::Disk, interval: intervals.disk, live: true },
        }
    }

    /// The refresher of `class`.
    pub open spec fn refresher(self, class: MetricClass) -> RefresherView {
        match class {
            MetricClass::Cpu => self.cpu,
            MetricClass::Memory => self.memory,
            MetricClass::Network => self.network,
            MetricClass::Disk => self.disk,
        }
    }

    /// Whether every refresher writes the class it is kept under.
    pub open spec fn well_formed(self) -> bool {
        forall|class: MetricClass| #[trigger] self.refresher(class).class == class
    }

    /// The monitor after one cycle: the cycle's refresher handles the outcome,
    /// the other three refreshers are as before.
    pub open spec fn step(self, cycle: Cycle) -> MonitorView {
        let refresher = self.refresher(cycle.class);
        let store = refresher.store_after(self.store, cycle.outcome);
        let refresher = refresher.after(cycle.outcome);
        match cycle.class {
            MetricClass::Cpu => MonitorView { store, cpu: refresher, ..self },
            MetricClass::Memory => MonitorView { store, memory: refresher, ..self },
            MetricClass::Network => MonitorView { store, network: refresher, ..self },
            MetricClass::Disk => MonitorView { store, disk: refresher, ..self },
        }
    }

    /// The monitor after the cycles of `history`, in order.
    pub open spec fn run(self, history: Seq<Cycle>) -> MonitorView
        decreases history.len(),
    {
        if history.len() == 0 {
            self
        } else {
            self.run(history.drop_last()).step(history.last())
        }
    }

    /// What a query for `class` returns.
    pub open spec fn reading(self, class: MetricClass) -> SnapshotView {
        self.store.snapshot(class)
    }

    /// Whether the refresher of `class` still takes readings.
    pub open spec fn live(self, class: MetricClass) -> bool {
        self.refresher(class).live
    }
}

/// A cycle acts on its own class alone. The class's reading becomes the one
/// the cycle brought if the refresher is live and the cycle brought one, and
/// stays otherwise; the refresher stays live unless the cycle found the
/// sampler exhausted. Every other class keeps its reading and its refresher.
pub proof fn law_cycle_acts_on_own_class(monitor: MonitorView, cycle: Cycle, class: MetricClass)
    requires
        monitor.well_formed(),
    ensures
        monitor.step(cycle).well_formed(),
        monitor.step(cycle).reading(class) == (if cycle.class == class && monitor.live(class)
            && cycle.brings_reading() {
            cycle.outcome->Ok_0
        } else {
            monitor.reading(class)
        }),
        monitor.step(cycle).live(class) == (monitor.live(class) && !(cycle.class == class
            && cycle.exhausts())),
        cycle.class != class ==> monitor.step(cycle).refresher(class) == monitor.refresher(class),
{
    assert(monitor.refresher(cycle.class).class == cycle.class);
    assert(monitor.refresher(class).class == class);
    let after = monitor.step(cycle);
    assert forall|other: MetricClass| #[trigger] after.refresher(other).class == other by {
        assert(monitor.refresher(other).class == other);
    }
}

/// A run from the start keeps every refresher with its class.
proof fn lemma_run_well_formed(intervals: Intervals, history: Seq<Cycle>)
    ensures
        MonitorView::start(intervals).run(history).well_formed(),
    decreases history.len(),
{
    let start = MonitorView::start(intervals);
    if history.len() > 0 {
        lemma_run_well_formed(intervals, history.drop_last());
        law_cycle_acts_on_own_class(
            start.run(history.drop_last()),
            history.last(),
            MetricClass::Cpu,
        );
    }
}

/// Every class keeps its own cadence: whatever the run, a refresher that goes
/// on after a cycle pauses for the interval configured for its class, and
/// the cycles of the other classes have no part in it.
pub proof fn law_pause_is_own_interval(
    intervals: Intervals,
    history: Seq<Cycle>,
    class: MetricClass,
    outcome: Result<SnapshotView, SampleError>,
)
    ensures
        ({
            let monitor = MonitorView::start(intervals).run(history);
            monitor.refresher(class).next(outcome) == (if monitor.live(class) && outcome != Err::<
                SnapshotView,
                SampleError,
            >(SampleError::Exhausted) {
                Next::Sleep(intervals.spec_of(class))
            } else {
                Next::Stop
            })
        }),
{
    lemma_run_keeps_intervals(intervals, history, class);
}

/// A run changes no refresher's interval.
proof fn lemma_run_keeps_intervals(intervals: Intervals, history: Seq<Cycle>, class: MetricClass)
    ensures
        MonitorView::start(intervals).run(history).refresher(class).interval == intervals.spec_of(
            class,
        ),
    decreases history.len(),
{
    if history.len() > 0 {
        lemma_run_keeps_intervals(intervals, history.drop_last(), class);
    }
}

/// A refresher is live after a run exactly if no cycle of its class found
/// the sampler exhausted.
pub proof fn law_live_until_exhausted(
    intervals: Intervals,
    history: Seq<Cycle>,
    class: MetricClass,
)
    ensures
        MonitorView::start(intervals).run(history).live(class) <==> forall|i: int|
            0 <= i < history.len() ==> !(#[trigger] history[i].class == class
                && history[i].exhausts()),
    decreases history.len(),
{
    let start = MonitorView::start(intervals);
    if history.len() > 0 {
        let before = history.drop_last();
        law_live_until_exhausted(intervals, before, class);
        lemma_run_well_formed(intervals, before);
        law_cycle_acts_on_own_class(start.run(before), history.last(), class);
        assert(forall|i: int| 0 <= i < before.len() ==> before[i] == history[i]);
        if start.run(history).live(class) {
            assert forall|i: int| 0 <= i < history.len() implies !(#[trigger] history[i].class
                == class && history[i].exhausts()) by {
                if i < before.len() {
                    assert(before[i] == history[i]);
                }
            }
        } else if start.run(before).live(class) {
            assert(history[history.len() - 1].class == class && history[history.len()
                - 1].exhausts());
        } else {
            let i = choose|i: int|
                0 <= i < before.len() && (#[trigger] before[i].class == class
                    && before[i].exhausts());
            assert(history[i].class == class && history[i].exhausts());
        }
    }
}

/// Whatever the run, a query returns a whole reading: the blank reading of
/// its class, or the reading that one cycle of that class brought. No reply
/// mixes two readings or shows part of one.
pub proof fn law_reading_is_blank_or_reported(
    intervals: Intervals,
    history: Seq<Cycle>,
    class: MetricClass,
)
    ensures
        ({
            let reading = MonitorView::start(intervals).run(history).reading(class);
            ||| reading == SnapshotView::blank(class)
            ||| exists|i: int|
                0 <= i < history.len() && (#[trigger] history[i]).class == class
                    && history[i].outcome == Ok::<SnapshotView, SampleError>(reading)
        }),
    decreases history.len(),
{
    let start = MonitorView::start(intervals);
    if history.len() > 0 {
        let before = history.drop_last();
        let last = history.last();
        law_reading_is_blank_or_reported(intervals, before, class);
        lemma_run_well_formed(intervals, before);
        law_cycle_acts_on_own_class(start.run(before), last, class);
        let reading = start.run(history).reading(class);
        if last.class == class && start.run(before).live(class) && last.brings_reading() {
            assert(history[history.len() - 1].class == class && history[history.len()
                - 1].outcome == Ok::<SnapshotView, SampleError>(reading));
        } else if reading != SnapshotView::blank(class) {
            let i = choose|i: int|
                0 <= i < before.len() && (#[trigger] before[i]).class == class && before[i].outcome
                    == Ok::<SnapshotView, SampleError>(reading);
            assert(history[i].class == class && history[i].outcome == Ok::<
                SnapshotView,
                SampleError,
            >(reading));
        }
    }
}

/// A class that no cycle has brought a reading of reads blank, however often
/// it is queried and whatever happened to the other classes.
pub proof fn law_unrefreshed_class_reads_blank(
    intervals: Intervals,
    history: Seq<Cycle>,
    class: MetricClass,
)
    requires
        forall|i: int|
            0 <= i < history.len() ==> !(#[trigger] history[i].class == class
                && history[i].brings_reading()),
    ensures
        MonitorView::start(intervals).run(history).reading(class) == SnapshotView::blank(class),
    decreases history.len(),
{
    let start = MonitorView::start(intervals);
    if history.len() > 0 {
        let before = history.drop_last();
        assert forall|i: int| 0 <= i < before.len() implies !(#[trigger] before[i].class == class
            && before[i].brings_reading()) by {
            assert(before[i] == history[i]);
        }
        law_unrefreshed_class_reads_blank(intervals, before, class);
        lemma_run_well_formed(intervals, before);
        law_cycle_acts_on_own_class(start.run(before), history.last(), class);
        assert(!(history[history.len() - 1].class == class && history[history.len()
            - 1].brings_reading()));
    }
}

/// A query returns exactly what the latest successful cycle of its class
/// reported: the reading of cycle `at`, where the refresher was still live at
/// that cycle and no later cycle of the class brought a reading.
pub proof fn law_latest_reading_is_served(
    intervals: Intervals,
    history: Seq<Cycle>,
    class: MetricClass,
    at: int,
)
    requires
        0 <= at < history.len(),
        history[at].class == class,
        history[at].brings_reading(),
        forall|i: int|
            0 <= i < at ==> !(#[trigger] history[i].class == class && history[i].exhausts()),
        forall|i: int|
            at < i < history.len() ==> !(#[trigger] history[i].class == class
                && history[i].brings_reading()),
    ensures
        Ok::<SnapshotView, SampleError>(MonitorView::start(intervals).run(history).reading(class))
            == history[at].outcome,
    decreases history.len(),
{
    let start = MonitorView::start(intervals);
    let before = history.drop_last();
    let last = history.last();
    lemma_run_well_formed(intervals, before);
    law_cycle_acts_on_own_class(start.run(before), last, class);
    if at == history.len() - 1 {
        law_live_until_exhausted(intervals, before, class);
        assert forall|i: int| 0 <= i < before.len() implies !(#[trigger] before[i].class == class
            && before[i].exhausts()) by {
            assert(before[i] == history[i]);
        }
    } else {
        assert(before[at] == history[at]);
        assert forall|i: int| 0 <= i < at implies !(#[trigger] before[i].class == class
            && before[i].exhausts()) by {
            assert(before[i] == history[i]);
        }
        assert forall|i: int| at < i < before.len() implies !(#[trigger] before[i].class == class
            && before[i].brings_reading()) by {
            assert(before[i] == history[i]);
        }
        law_latest_reading_is_served(intervals, before, class, at);
        assert(!(history[history.len() - 1].class == class && history[history.len()
            - 1].brings_reading()));
    }
}

/// Cycles that bring no reading of a class leave its reading as it was:
/// while every refresh of the class fails, queries keep returning the last
/// good reading, or the blank one if there was none.
pub proof fn law_failed_cycles_keep_last_reading(
    intervals: Intervals,
    history: Seq<Cycle>,
    failing: Seq<Cycle>,
    class: MetricClass,
)
    requires
        forall|i: int|
            0 <= i < failing.len() ==> !(#[trigger] failing[i].class == class
                && failing[i].brings_reading()),
    ensures
        MonitorView::start(intervals).run(history + failing).reading(class) == MonitorView::start(
            intervals,
        ).run(history).reading(class),
    decreases failing.len(),
{
    let start = MonitorView::start(intervals);
    if failing.len() == 0 {
        assert(history + failing =~= history);
    } else {
        let whole = history + failing;
        let shorter = failing.drop_last();
        assert(whole.drop_last() =~= history + shorter);
        assert(whole.last() == failing[failing.len() - 1]);
        assert forall|i: int| 0 <= i < shorter.len() implies !(#[trigger] shorter[i].class == class
            && shorter[i].brings_reading()) by {
            assert(shorter[i] == failing[i]);
        }
        law_failed_cycles_keep_last_reading(intervals, history, shorter, class);
        lemma_run_well_formed(intervals, history + shorter);
        law_cycle_acts_on_own_class(start.run(history + shorter), whole.last(), class);
    }
}

/// Once a class's sampler is exhausted the class is frozen: whatever cycles
/// follow, its reading stays what it was and its refresher stays stopped.
pub proof fn law_exhausted_class_is_frozen(
    intervals: Intervals,
    history: Seq<Cycle>,
    later: Seq<Cycle>,
    class: MetricClass,
)
    requires
        !MonitorView::start(intervals).run(history).live(class),
    ensures
        !MonitorView::start(intervals).run(history + later).live(class),
        MonitorView::start(intervals).run(history + later).reading(class) == MonitorView::start(
            intervals,
        ).run(history).reading(class),
    decreases later.len(),
{
    let start = MonitorView::start(intervals);
    if later.len() == 0 {
        assert(history + later =~= history);
    } else {
        let whole = history + later;
        let shorter = later.drop_last();
        assert(whole.drop_last() =~= history + shorter);
        law_exhausted_class_is_frozen(intervals, history, shorter, class);
        lemma_run_well_formed(intervals, history + shorter);
        law_cycle_acts_on_own_class(start.run(history + shorter), whole.last(), class);
    }
}

} // verus!
