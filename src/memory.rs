//! Addresses and memory classifications.
use vstd::prelude::*;

verus! {

/// A physical address.
#[derive(Clone, Copy, Debug, PartialEq, Eq, Structural)]
pub struct PhysAddress(pub u64);

impl PhysAddress {
    pub fn new(address: u64) -> (r: Self)
        ensures
            r.0 == address,
    {
        PhysAddress(address)
    }

    /// The address of a byte block, as the allocator hands it out.
    pub fn from_mut_u8(address: u64) -> (r: Self)
        ensures
            r.0 == address,
    {
        PhysAddress(address)
    }

    /// The address of an untyped pool block.
    pub fn from_ptr(address: u64) -> (r: Self)
        ensures
            r.0 == address,
    {
        PhysAddress(address)
    }

    pub fn get(&self) -> (r: u64)
        ensures
            r == self.0,
    {
        self.0
    }
}

/// A virtual address.
#[derive(Clone, Copy, Debug, PartialEq, Eq, Structural)]
pub struct VirtAddress(pub u64);

/// The attributes that a memory range may carry.
#[derive(Clone, Copy, Debug, PartialEq, Eq, Structural)]
pub enum MemoryAttribute {
    EfiMemoryUC,
    EfiMemoryWC,
    EfiMemoryWT,
    EfiMemoryWB,
    EfiMemoryUCE,
    EfiMemoryWP,
    EfiMemoryRP,
    EfiMemoryXP,
    EfiMemoryRuntime,
}

/// The classification of a memory range; pool requests name one.
#[derive(Clone, Copy, Debug, PartialEq, Eq, Structural)]
pub enum MemoryType {
    EfiReservedMemoryType,
    EfiLoaderCode,
    EfiLoaderData,
    EfiBootServicesCode,
    EfiBootServicesData,
    EfiRuntimeServicesCode,
    EfiRuntimeServicesData,
    EfiConventionalMemory,
    EfiUnusableMemory,
    EfiACPIReclaimMemory,
    EfiACPIMemoryNVS,
    EfiMemoryMappedIO,
    EfiMemoryMappedIOPortSpace,
    EfiPalCode,
    EfiPersistentMemory,
    EfiMaxMemoryType,
}

/// One range of the memory map.
#[derive(Clone, Copy, Debug, PartialEq, Eq, Structural)]
pub struct MemoryDescriptor {
    pub mem_type: MemoryType,
    pub physical_start: PhysAddress,
    pub virtual_start: VirtAddress,
    /// The length of the range in pages.
    pub count: u64,
    pub attribute: MemoryAttribute,
}

/// A pointer-sized value that points at nothing the library reads.
pub struct Void;

impl Void {
    /// The null address.
    pub fn new() -> (r: PhysAddress)
        ensures
            r.0 == 0,
    {
        PhysAddress(0)
    }

    pub fn from_addr(addr: u64) -> (r: PhysAddress)
        ensures
            r.0 == addr,
    {
        PhysAddress(addr)
    }
}

} // verus!
