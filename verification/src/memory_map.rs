//! The boot memory map as the loader hands it over: an ordered list of
//! physical regions, each with a usability class.

use vstd::prelude::*;

verus! {

/// What a region of physical memory may be used for.
#[derive(Clone, Copy, Debug, PartialEq, Eq, Structural)]
pub enum RegionKind {
    /// Free for the kernel to use.
    Usable,
    /// Permanently reserved.
    Reserved,
    /// Held by ACPI tables, reclaimable once they have been read.
    AcpiReclaimable,
    /// Held by ACPI for good.
    AcpiNvs,
    /// Physically defective.
    BadMemory,
    /// Held by the loader, reclaimable once its responses have been read.
    BootloaderReclaimable,
    /// Holds the kernel image and its modules.
    ExecutableAndModules,
    /// Holds the framebuffer.
    Framebuffer,
    /// A class this kernel does not know.
    Other,
}

/// One entry of the boot memory map.
#[derive(Clone, Copy, Debug, PartialEq, Eq, Structural)]
pub struct MemoryRegion {
    /// Physical address of the first byte.
    pub base: u64,
    /// Number of bytes.
    pub length: u64,
    /// Usability class.
    pub kind: RegionKind,
}

impl MemoryRegion {
    /// Whether the loader reported the region as free for use.
    pub open spec fn usable(self) -> bool {
        self.kind == RegionKind::Usable
    }

    pub fn is_usable(&self) -> (b: bool)
        ensures
            b == self.usable(),
    {
        match self.kind {
            RegionKind::Usable => true,
            _ => false,
        }
    }
}

} // verus!
