//! The dispatcher's handling of one request.
//!
//! A request names a metric class and carries the sending half of a
//! single-use reply channel. The dispatcher copies the class out of the store
//! and hands the copy to the channel. A caller that has gone away is no error:
//! the copy comes back undelivered and the dispatcher goes on.

use crate::sample::{Cpu, Disk, Memory, Network};
use crate::store::{MetricClass, Snapshot, SnapshotStore};
use futures::channel::oneshot::Sender;
use vstd::prelude::*;

verus! {

/// The sending half of the `futures` single-use channel, carried through as
/// an opaque value.
#[verifier::external_type_specification]
#[verifier::external_body]
#[verifier::reject_recursive_types(T)]
pub struct ExSender<T>(futures::channel::oneshot::Sender<T>);

/// `Sender::send` of a single-use channel either enqueues the value for the
/// receiving half and returns `Ok`, or, where the receiving half is gone,
/// returns `Err` with the very value it was given. Which of the two happens
/// depends on the other end of the channel, so nothing is claimed about it.
pub assume_specification<T>[ futures::channel::oneshot::Sender::<T>::send ](
    sender: Sender<T>,
    t: T,
) -> (r: Result<(), T>)
    ensures
        r matches Err(back) ==> back == t,
;

/// The most requests that wait for the dispatcher at one time.
pub const REQUEST_QUEUE_CAPACITY: usize = 1;

/// A request for the current reading of one metric class, with the channel
/// on which the reading is to be sent.
#[allow(inconsistent_fields)]
pub enum Request {
    Cpu { tx: Sender<Vec<Cpu>> },
    Memory { tx: Sender<Memory> },
    Network { tx: Sender<Vec<Network>> },
    Disk { tx: Sender<Vec<Disk>> },
}

impl Request {
    /// The class that is asked for.
    pub open spec fn spec_class(&self) -> MetricClass {
        match self {
            Request::Cpu { .. } => MetricClass::Cpu,
            Request::Memory { .. } => MetricClass::Memory,
            Request::Network { .. } => MetricClass::Network,
            Request::Disk { .. } => MetricClass::Disk,
        }
    }

    /// The class that is asked for.
    #[verifier::when_used_as_spec(spec_class)]
    pub fn class(&self) -> (class: MetricClass)
        ensures
            class == self.spec_class(),
    {
        match self {
            Request::Cpu { .. } => MetricClass::Cpu,
            Request::Memory { .. } => MetricClass::Memory,
            Request::Network { .. } => MetricClass::Network,
            Request::Disk { .. } => MetricClass::Disk,
        }
    }
}

/// How the handling of a request ended.
#[derive(Debug, PartialEq, Eq)]
pub enum Delivery {
    /// The reply was handed to the channel.
    Delivered,
    /// The caller had gone away; this is the reply that nobody took.
    Abandoned(Snapshot),
}

/// The end of a delivery of per-core readings, given the channel's answer
/// to the send: delivered where the channel took the reply, abandoned with
/// the reply where the channel gave it back.
pub fn cpu_delivery(sent: Result<(), Vec<Cpu>>) -> (delivery: Delivery)
    ensures
        delivery == (match sent {
            Ok(_) => Delivery::Delivered,
            Err(back) => Delivery::Abandoned(Snapshot::Cpu(back)),
        }),
{
    match sent {
        Ok(_) => Delivery::Delivered,
        Err(back) => Delivery::Abandoned(Snapshot::Cpu(back)),
    }
}

/// The end of a delivery of a memory reading, given the channel's answer to
/// the send.
pub fn memory_delivery(sent: Result<(), Memory>) -> (delivery: Delivery)
    ensures
        delivery == (match sent {
            Ok(_) => Delivery::Delivered,
            Err(back) => Delivery::Abandoned(Snapshot::Memory(back)),
        }),
{
    match sent {
        Ok(_) => Delivery::Delivered,
        Err(back) => Delivery::Abandoned(Snapshot::Memory(back)),
    }
}

/// The end of a delivery of per-interface readings, given the channel's
/// answer to the send.
pub fn network_delivery(sent: Result<(), Vec<Network>>) -> (delivery: Delivery)
    ensures
        delivery == (match sent {
            Ok(_) => Delivery::Delivered,
            Err(back) => Delivery::Abandoned(Snapshot::Network(back)),
        }),
{
    match sent {
        Ok(_) => Delivery::Delivered,
        Err(back) => Delivery::Abandoned(Snapshot::Network(back)),
    }
}

/// The end of a delivery of per-disk readings, given the channel's answer to
/// the send.
pub fn disk_delivery(sent: Result<(), Vec<Disk>>) -> (delivery: Delivery)
    ensures
        delivery == (match sent {
            Ok(_) => Delivery::Delivered,
            Err(back) => Delivery::Abandoned(Snapshot::Disk(back)),
        }),
{
    match sent {
        Ok(_) => Delivery::Delivered,
        Err(back) => Delivery::Abandoned(Snapshot::Disk(back)),
    }
}

/// Serves one request from the store: sends a copy of the requested class
/// on the request's channel.
///
/// The store is only read. What is handed to the channel is the store's
/// reading of the requested class, as `cpus`, `memory`, `networks` or `disks`
/// returns it. Whether the reply is delivered rests with the caller's end of
/// the channel, and the result follows the channel's answer as `cpu_delivery`
/// and its three siblings say; a reply that comes back undelivered is that
/// reading.
pub fn serve(store: &SnapshotStore, request: Request) -> (delivery: Delivery)
    ensures
        delivery matches Delivery::Abandoned(reply) ==> reply@ == store@.snapshot(
            request.spec_class(),
        ),
{
    match request {
        Request::Cpu { tx } => cpu_delivery(tx.send(store.cpus())),
        Request::Memory { tx } => memory_delivery(tx.send(store.memory())),
        Request::Network { tx } => network_delivery(tx.send(store.networks())),
        Request::Disk { tx } => disk_delivery(tx.send(store.disks())),
    }
}

} // verus!
