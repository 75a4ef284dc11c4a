//! The snapshot store: the latest reading of every metric class.
//!
//! A class is replaced as a whole or not at all, and no operation touches
//! more than one class.

use crate::sample::{Cpu, Disk, Memory, Network};
use vstd::prelude::*;

verus! {

/// One of the four kinds of metric the monitor keeps.
#[derive(Clone, Copy, Debug, PartialEq, Eq, Structural, Hash)]
pub enum MetricClass {
    Cpu,
    Memory,
    Network,
    Disk,
}

/// The reading of one metric class at one moment.
#[derive(Debug, PartialEq, Eq)]
pub enum Snapshot {
    /// One entry per logical core.
    Cpu(Vec<Cpu>),
    Memory(Memory),
    /// One entry per interface found.
    Network(Vec<Network>),
    /// One entry per disk found.
    Disk(Vec<Disk>),
}

/// A snapshot as a mathematical value.
pub ghost enum SnapshotView {
    Cpu(Seq<Cpu>),
    Memory(Memory),
    Network(Seq<Network>),
    Disk(Seq<Disk>),
}

impl SnapshotView {
    /// The class this snapshot is a reading of.
    pub open spec fn class(self) -> MetricClass {
        match self {
            SnapshotView::Cpu(_) => MetricClass::Cpu,
            SnapshotView::Memory(_) => MetricClass::Memory,
            SnapshotView::Network(_) => MetricClass::Network,
            SnapshotView::Disk(_) => MetricClass::Disk,
        }
    }

    /// What a class reads before its first refresh: no cores, zeroed memory,
    /// no interfaces, no disks.
    pub open spec fn blank(class: MetricClass) -> SnapshotView {
        match class {
            MetricClass::Cpu => SnapshotView::Cpu(Seq::empty()),
            MetricClass::Memory => SnapshotView::Memory(Memory::zero()),
            MetricClass::Network => SnapshotView::Network(Seq::empty()),
            MetricClass::Disk => SnapshotView::Disk(Seq::empty()),
        }
    }
}

impl View for Snapshot {
    type V = SnapshotView;

    open spec fn view(&self) -> SnapshotView {
        match self {
            Snapshot::Cpu(cpus) => SnapshotView::Cpu(cpus@),
            Snapshot::Memory(memory) => SnapshotView::Memory(*memory),
            Snapshot::Network(networks) => SnapshotView::Network(networks@),
            Snapshot::Disk(disks) => SnapshotView::Disk(disks@),
        }
    }
}

impl Snapshot {
    /// The class this snapshot is a reading of.
    pub fn class(&self) -> (class: MetricClass)
        ensures
            class == self@.class(),
    {
        match self {
            Snapshot::Cpu(_) => MetricClass::Cpu,
            Snapshot::Memory(_) => MetricClass::Memory,
            Snapshot::Network(_) => MetricClass::Network,
            Snapshot::Disk(_) => MetricClass::Disk,
        }
    }
}

/// The contents of a store as a mathematical value.
pub ghost struct StoreView {
    pub cpus: Seq<Cpu>,
    pub memory: Memory,
    pub networks: Seq<Network>,
    pub disks: Seq<Disk>,
}

impl StoreView {
    /// The store before any refresh.
    pub open spec fn blank() -> StoreView {
        StoreView {
            cpus: Seq::empty(),
            memory: Memory::zero(),
            networks: Seq::empty(),
            disks: Seq::empty(),
        }
    }

    /// The current reading of `class`.
    pub open spec fn snapshot(self, class: MetricClass) -> SnapshotView {
        match class {
            MetricClass::Cpu => SnapshotView::Cpu(self.cpus),
            MetricClass::Memory => SnapshotView::Memory(self.memory),
            MetricClass::Network => SnapshotView::Network(self.networks),
            MetricClass::Disk => SnapshotView::Disk(self.disks),
        }
    }

    /// The store with the class of `snapshot` replaced by it and the other
    /// three classes as they were.
    pub open spec fn install(self, snapshot: SnapshotView) -> StoreView {
        match snapshot {
            SnapshotView::Cpu(cpus) => StoreView { cpus, ..self },
            SnapshotView::Memory(memory) => StoreView { memory, ..self },
            SnapshotView::Network(networks) => StoreView { networks, ..self },
            SnapshotView::Disk(disks) => StoreView { disks, ..self },
        }
    }
}

/// The latest reading of every metric class.
#[derive(Debug)]
pub struct SnapshotStore {
    cpus: Vec<Cpu>,
    memory: Memory,
    networks: Vec<Network>,
    disks: Vec<Disk>,
}

impl View for SnapshotStore {
    type V = StoreView;

    closed spec fn view(&self) -> StoreView {
        StoreView {
            cpus: self.cpus@,
            memory: self.memory,
            networks: self.networks@,
            disks: self.disks@,
        }
    }
}

impl SnapshotStore {
    /// A store in which no class has been refreshed yet.
    pub fn new() -> (store: SnapshotStore)
        ensures
            store@ == StoreView::blank(),
    {
        SnapshotStore {
            cpus: Vec::new(),
            memory: Memory::default(),
            networks: Vec::new(),
            disks: Vec::new(),
        }
    }

    /// Replaces the class of `snapshot` with it, as a whole. The other three
    /// classes stay as they are.
    pub fn install(&mut self, snapshot: Snapshot)
        ensures
            final(self)@ == old(self)@.install(snapshot@),
    {
        match snapshot {
            Snapshot::Cpu(cpus) => {
                self.cpus = cpus;
            },
            Snapshot::Memory(memory) => {
                self.memory = memory;
            },
            Snapshot::Network(networks) => {
                self.networks = networks;
            },
            Snapshot::Disk(disks) => {
                self.disks = disks;
            },
        }
    }

    /// A copy of the per-core readings.
    pub fn cpus(&self) -> (cpus: Vec<Cpu>)
        ensures
            cpus@ == self@.cpus,
    {
        let cpus = self.cpus.clone();
        assert(cpus@ =~= self.cpus@);
        cpus
    }

    /// A copy of the memory reading.
    pub fn memory(&self) -> (memory: Memory)
        ensures
            memory == self@.memory,
    {
        self.memory
    }

    /// A copy of the per-interface readings.
    pub fn networks(&self) -> (networks: Vec<Network>)
        ensures
            networks@ == self@.networks,
    {
        let networks = self.networks.clone();
        assert(networks@ =~= self.networks@);
        networks
    }

    /// A copy of the per-disk readings.
    pub fn disks(&self) -> (disks: Vec<Disk>)
        ensures
            disks@ == self@.disks,
    {
        let disks = self.disks.clone();
        assert(disks@ =~= self.disks@);
        disks
    }

    /// A copy of the current reading of `class`.
    pub fn snapshot(&self, class: MetricClass) -> (snapshot: Snapshot)
        ensures
            snapshot@ == self@.snapshot(class),
    {
        match class {
            MetricClass::Cpu => Snapshot::Cpu(self.cpus()),
            MetricClass::Memory => Snapshot::Memory(self.memory()),
            MetricClass::Network => Snapshot::Network(self.networks()),
            MetricClass::Disk => Snapshot::Disk(self.disks()),
        }
    }
}

impl Default for SnapshotStore {
    fn default() -> (store: SnapshotStore)
        ensures
            store@ == StoreView::blank(),
    {
        SnapshotStore::new()
    }
}

} // verus!
