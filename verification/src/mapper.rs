//! Physical-to-virtual address translation over the higher-half direct
//! map: every physical address is visible at a fixed virtual offset.

use vstd::prelude::*;

verus! {

/// Translator from physical addresses to virtual ones, fixed at boot from
/// the direct-map offset the boot protocol reports.
#[derive(Clone, Copy)]
pub struct Mapper {
    /// Virtual address at which physical address zero is mapped.
    pub physical_memory_offset: usize,
}

impl Mapper {
    /// A translator for the given direct-map offset.
    pub fn new(physical_memory_offset: usize) -> (m: Mapper)
        ensures
            m.physical_memory_offset == physical_memory_offset,
    {
        Mapper { physical_memory_offset }
    }

    /// The virtual address backing a physical one: the direct-map offset
    /// plus the physical address.
    pub fn phys_to_virt(&self, phys: usize) -> (virt: usize)
        requires
            self.physical_memory_offset + phys <= usize::MAX,
        ensures
            virt == self.physical_memory_offset + phys,
    {
        self.physical_memory_offset + phys
    }

    /// The same translation for callers that will turn the address into a
    /// pointer: additionally non-null, as a pointer must be.
    pub fn phys_to_virt_ptr(&self, phys: usize) -> (virt: usize)
        requires
            self.physical_memory_offset + phys <= usize::MAX,
            self.physical_memory_offset + phys > 0,
        ensures
            virt == self.physical_memory_offset + phys,
            virt != 0,
    {
        self.phys_to_virt(phys)
    }
}

} // verus!
