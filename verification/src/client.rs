//! The caller's side of a request: what a query returns, given what came
//! back on its reply channel.
//!
//! A caller never sees a plumbing error. Where the reply channel was dropped
//! before a reading arrived, the query returns the blank reading of its
//! class.

use crate::sample::{Cpu, Disk, Memory, Network};
use futures::channel::oneshot::Canceled;
use vstd::prelude::*;

verus! {

/// The error with which the receiving half of the `futures` single-use
/// channel resolves when the sending half was dropped without a value.
#[verifier::external_type_specification]
#[verifier::external_body]
pub struct ExCanceled(futures::channel::oneshot::Canceled);

/// The result of a CPU query: the reading that arrived, or no cores where
/// none did.
pub fn cpu_reply(reply: Result<Vec<Cpu>, Canceled>) -> (cpus: Vec<Cpu>)
    ensures
        reply matches Ok(arrived) ==> cpus == arrived,
        reply is Err ==> cpus@ == Seq::<Cpu>::empty(),
{
    match reply {
        Ok(arrived) => arrived,
        Err(_) => Vec::new(),
    }
}

/// The result of a memory query: the reading that arrived, or zeroed memory
/// where none did.
pub fn memory_reply(reply: Result<Memory, Canceled>) -> (memory: Memory)
    ensures
        reply matches Ok(arrived) ==> memory == arrived,
        reply is Err ==> memory == Memory::zero(),
{
    match reply {
        Ok(arrived) => arrived,
        Err(_) => Memory::default(),
    }
}

/// The result of a network query: the reading that arrived, or no interfaces
/// where none did.
pub fn network_reply(reply: Result<Vec<Network>, Canceled>) -> (networks: Vec<Network>)
    ensures
        reply matches Ok(arrived) ==> networks == arrived,
        reply is Err ==> networks@ == Seq::<Network>::empty(),
{
    match reply {
        Ok(arrived) => arrived,
        Err(_) => Vec::new(),
    }
}

/// The result of a disk query: the reading that arrived, or no disks where
/// none did.
pub fn disk_reply(reply: Result<Vec<Disk>, Canceled>) -> (disks: Vec<Disk>)
    ensures
        reply matches Ok(arrived) ==> disks == arrived,
        reply is Err ==> disks@ == Seq::<Disk>::empty(),
{
    match reply {
        Ok(arrived) => arrived,
        Err(_) => Vec::new(),
    }
}

} // verus!
