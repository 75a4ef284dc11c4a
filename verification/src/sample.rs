//! The readings that make up a snapshot: one record type per metric class.

use std::path::PathBuf;
use vstd::prelude::*;

verus! {

/// `std::path::PathBuf`, carried through as an opaque value.
#[verifier::external_type_specification]
#[verifier::external_body]
pub struct ExPathBuf(std::path::PathBuf);

/// `PathBuf::clone` yields a path equal to the one it was given.
pub assume_specification[ <std::path::PathBuf as Clone>::clone ](path: &PathBuf) -> (copy: PathBuf)
    ensures
        copy == *path,
;

/// `PathBuf::new` yields a path; nothing is claimed about it here.
pub assume_specification[ std::path::PathBuf::new ]() -> (path: PathBuf)
;

/// The load of one logical core.
#[derive(Debug, PartialEq, Eq)]
pub struct Cpu {
    /// The name the platform gives the core.
    pub name: String,
    /// The usage percentage as the bit pattern of a single-precision float.
    pub usage_bits: u32,
}

/// Swap space, in bytes.
#[derive(Clone, Copy, Debug, PartialEq, Eq)]
pub struct Swap {
    pub total: u64,
    pub free: u64,
    pub used: u64,
}

/// Main memory and swap space, in bytes.
#[derive(Clone, Copy, Debug, PartialEq, Eq)]
pub struct Memory {
    pub total: u64,
    pub available: u64,
    pub free: u64,
    pub used: u64,
    pub swap: Swap,
}

/// The traffic counters of one network interface. Each counter comes as the
/// amount since the previous refresh and as the running total.
#[derive(Debug, PartialEq, Eq)]
pub struct Network {
    pub name: String,
    pub received: u64,
    pub total_received: u64,
    pub transmitted: u64,
    pub total_transmitted: u64,
    pub packets_received: u64,
    pub total_packets_received: u64,
    pub packets_transmitted: u64,
    pub total_packets_transmitted: u64,
    pub errors_on_received: u64,
    pub total_errors_on_received: u64,
    pub errors_on_transmitted: u64,
    pub total_errors_on_transmitted: u64,
}

/// The space of one mounted disk, in bytes.
#[derive(Debug, PartialEq, Eq)]
pub struct Disk {
    pub file_system: String,
    pub mount_point: PathBuf,
    pub total_space: u64,
    pub available_space: u64,
}

impl Swap {
    /// Swap space with every counter at zero.
    pub open spec fn zero() -> Swap {
        Swap { total: 0, free: 0, used: 0 }
    }
}

impl Memory {
    /// Memory with every counter at zero.
    pub open spec fn zero() -> Memory {
        Memory { total: 0, available: 0, free: 0, used: 0, swap: Swap::zero() }
    }
}

impl Cpu {
    /// Whether this is the reading of a nameless, idle core.
    pub open spec fn is_blank(&self) -> bool {
        self.name@ == Seq::<char>::empty() && self.usage_bits == 0
    }
}

impl Network {
    /// Whether this is the reading of a nameless interface without traffic.
    pub open spec fn is_blank(&self) -> bool {
        &&& self.name@ == Seq::<char>::empty()
        &&& self.received == 0
        &&& self.total_received == 0
        &&& self.transmitted == 0
        &&& self.total_transmitted == 0
        &&& self.packets_received == 0
        &&& self.total_packets_received == 0
        &&& self.packets_transmitted == 0
        &&& self.total_packets_transmitted == 0
        &&& self.errors_on_received == 0
        &&& self.total_errors_on_received == 0
        &&& self.errors_on_transmitted == 0
        &&& self.total_errors_on_transmitted == 0
    }
}

impl Disk {
    /// Whether this is the reading of a disk without a file system or space.
    pub open spec fn is_blank(&self) -> bool {
        &&& self.file_system@ == Seq::<char>::empty()
        &&& self.total_space == 0
        &&& self.available_space == 0
    }
}

impl Default for Swap {
    fn default() -> (r: Swap)
        ensures
            r == Swap::zero(),
    {
        Swap { total: 0, free: 0, used: 0 }
    }
}

impl Default for Memory {
    fn default() -> (r: Memory)
        ensures
            r == Memory::zero(),
    {
        Memory { total: 0, available: 0, free: 0, used: 0, swap: Swap::default() }
    }
}

impl Default for Cpu {
    fn default() -> (r: Cpu)
        ensures
            r.is_blank(),
    {
        Cpu { name: String::new(), usage_bits: 0 }
    }
}

impl Default for Network {
    fn default() -> (r: Network)
        ensures
            r.is_blank(),
    {
        Network {
            name: String::new(),
            received: 0,
            total_received: 0,
            transmitted: 0,
            total_transmitted: 0,
            packets_received: 0,
            total_packets_received: 0,
            packets_transmitted: 0,
            total_packets_transmitted: 0,
            errors_on_received: 0,
            total_errors_on_received: 0,
            errors_on_transmitted: 0,
            total_errors_on_transmitted: 0,
        }
    }
}

impl Default for Disk {
    fn default() -> (r: Disk)
        ensures
            r.is_blank(),
    {
        Disk {
            file_system: String::new(),
            mount_point: PathBuf::new(),
            total_space: 0,
            available_space: 0,
        }
    }
}

impl Clone for Cpu {
    fn clone(&self) -> (r: Cpu)
        ensures
            r == *self,
    {
        Cpu { name: self.name.clone(), usage_bits: self.usage_bits }
    }
}

impl Clone for Network {
    fn clone(&self) -> (r: Network)
        ensures
            r == *self,
    {
        Network {
            name: self.name.clone(),
            received: self.received,
            total_received: self.total_received,
            transmitted: self.transmitted,
            total_transmitted: self.total_transmitted,
            packets_received: self.packets_received,
            total_packets_received: self.total_packets_received,
            packets_transmitted: self.packets_transmitted,
            total_packets_transmitted: self.total_packets_transmitted,
            errors_on_received: self.errors_on_received,
            total_errors_on_received: self.total_errors_on_received,
            errors_on_transmitted: self.errors_on_transmitted,
            total_errors_on_transmitted: self.total_errors_on_transmitted,
        }
    }
}

impl Clone for Disk {
    fn clone(&self) -> (r: Disk)
        ensures
            r == *self,
    {
        Disk {
            file_system: self.file_system.clone(),
            mount_point: self.mount_point.clone(),
            total_space: self.total_space,
            available_space: self.available_space,
        }
    }
}

} // verus!
