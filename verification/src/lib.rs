//! Verified core of a background system-metrics monitor.
//!
//! The monitor samples four metric classes (CPU, memory, network, disk) at
//! independent cadences and serves point-in-time snapshots to callers. This
//! crate holds the sequential heart of that design: the snapshot store, the
//! per-cycle decision of a refresher, the dispatcher's handling of one
//! request, the resolution of a reply on the caller's side, and the interval
//! configuration. The threads, the lock around the store and the request
//! queue that carry these steps live with the embedding program.

pub mod client;
pub mod config;
pub mod dispatcher;
pub mod interval;
pub mod refresher;
pub mod sample;
pub mod store;
pub mod timeline;

pub use client::{cpu_reply, disk_reply, memory_reply, network_reply};
pub use config::{Intervals, IntervalsBuilder};
pub use dispatcher::{
    cpu_delivery, disk_delivery, memory_delivery, network_delivery, serve, Delivery, Request,
    REQUEST_QUEUE_CAPACITY,
};
pub use interval::Interval;
pub use refresher::{Next, Refresher, SampleError};
pub use sample::{Cpu, Disk, Memory, Network, Swap};
pub use store::{MetricClass, Snapshot, SnapshotStore};
