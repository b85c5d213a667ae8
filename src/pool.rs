//! A general-purpose allocator over firmware pool memory.
use vstd::prelude::*;
use crate::boot::{BootServices, BootTable};
use crate::memory::{MemoryType, PhysAddress};

verus! {

/// The alignment that every pool block has.
pub const POOL_ALIGNMENT: usize = 8;

/// Whether `n` is a power of two, as every alignment is.
pub open spec fn is_power_of_two(n: nat) -> bool
    decreases n,
{
    if n == 1 {
        true
    } else if n == 0 || n % 2 == 1 {
        false
    } else {
        is_power_of_two(n / 2)
    }
}

/// The alignments that pool blocks meet.
proof fn lemma_small_alignment(align: nat)
    requires
        is_power_of_two(align),
        align <= 8,
    ensures
        align == 1 || align == 2 || align == 4 || align == 8,
{
    reveal_with_fuel(is_power_of_two, 4);
}

/// Hands out pool memory, once it has been given the boot services.
///
/// Failure is reported by the null address: the allocation interface has no
/// room for a status.
pub struct Allocator<B> {
    pub boot: Option<BootServices<B>>,
}

impl<B: BootTable> Allocator<B> {
    pub open spec fn is_initialized(&self) -> bool {
        self.boot is Some
    }

    pub open spec fn spec_boot(&self) -> BootServices<B> {
        self.boot->Some_0
    }

    /// An allocator that has no boot services yet.
    pub fn new() -> (r: Self)
        ensures
            !r.is_initialized(),
    {
        Allocator { boot: None }
    }

    /// Installs the boot services; allocation may start afterwards.
    pub fn init(&mut self, boot_services: BootServices<B>) -> (r: ())
        ensures
            final(self).is_initialized(),
            final(self).spec_boot() == boot_services,
    {
        self.boot = Some(boot_services);
    }

    /// A block of `size` bytes aligned to `align`, or the null address.
    ///
    /// Pool blocks are only 8-byte aligned, so a stricter alignment fails
    /// without asking the firmware. Blocks are loader data.
    pub fn allocate(&mut self, size: usize, align: usize) -> (r: PhysAddress)
        requires
            old(self).is_initialized(),
            is_power_of_two(align as nat),
        ensures
            final(self).is_initialized(),
            r.0 != 0 ==> r.0 % (align as u64) == 0,
            align > POOL_ALIGNMENT ==> r.0 == 0 && *final(self) == *old(self),
            align <= POOL_ALIGNMENT ==> {
                let before = old(self).spec_boot().table;
                let after = final(self).spec_boot().table;
                &&& after.pool_requests() == before.pool_requests().push((MemoryType::EfiLoaderData, size))
                &&& r.0 != 0 ==> {
                    &&& r.0 % 8 == 0
                    &&& !before.pool().contains_key(r.0)
                    &&& after.pool() == before.pool().insert(r.0, size as nat)
                }
                &&& r.0 == 0 ==> after.pool() == before.pool()
            },
    {
        if align > POOL_ALIGNMENT {
            return PhysAddress(0);
        }
        let mut boot = self.boot.take().unwrap();
        let result = boot.allocate_pool(MemoryType::EfiLoaderData, size);
        self.boot = Some(boot);
        proof {
            lemma_small_alignment(align as nat);
        }
        let address = match result {
            Ok(c) => c.unwrap(),
            Err(_) => PhysAddress(0),
        };
        proof {
            let a = address.0;
            if a != 0 {
                assert(a % 8 == 0);
                assert(a % (align as u64) == 0) by {
                    if align == 2 {
                        assert(a % 2 == 0);
                    } else if align == 4 {
                        assert(a % 4 == 0);
                    }
                }
            }
        }
        address
    }

    /// Releases a block; a failure of the firmware is dropped, as the
    /// allocation interface has no room for it.
    pub fn dealloc(&mut self, address: PhysAddress) -> (r: ())
        requires
            old(self).is_initialized(),
        ensures
            final(self).is_initialized(),
            final(self).spec_boot().table.pool_requests() == old(self).spec_boot().table.pool_requests(),
            !old(self).spec_boot().table.free_response(address.0).spec_is_error()
                ==> final(self).spec_boot().table.pool() == old(self).spec_boot().table.pool().remove(address.0),
            old(self).spec_boot().table.free_response(address.0).spec_is_error()
                ==> final(self).spec_boot().table.pool() == old(self).spec_boot().table.pool(),
    {
        let mut boot = self.boot.take().unwrap();
        let _ = boot.free_pool(address);
        self.boot = Some(boot);
    }
}

} // verus!
