//! The boot-reported physical memory map, as plain values.

use vstd::prelude::*;

verus! {

/// The kind of a boot-reported physical memory region: only `Usable` memory
/// may back frames handed out by the allocator.
#[derive(Clone, Copy, Debug, PartialEq, Eq, Structural)]
pub enum RegionKind {
    /// Free conventional memory.
    Usable,
    /// Memory holding boot-loader structures.
    Bootloader,
    /// Reserved, device, or otherwise untouchable memory.
    Reserved,
}

/// A boot-reported physical memory range `[start, end)`.
#[derive(Clone, Copy, Debug, PartialEq, Eq, Structural)]
pub struct MemoryRegion {
    pub start: u64,
    pub end: u64,
    pub kind: RegionKind,
}

impl MemoryRegion {
    /// A region is well formed when its bounds are ordered.
    pub open spec fn wf(self) -> bool {
        self.start <= self.end
    }

    /// The region's length in bytes.
    pub open spec fn byte_len(self) -> int {
        self.end - self.start
    }

    /// Whether the region is usable and at least `need` bytes long: the
    /// criterion by which the frame allocator picks its backing region.
    pub open spec fn usable_with(self, need: u64) -> bool {
        self.kind == RegionKind::Usable && self.byte_len() >= need
    }

    /// Number of whole frames the region holds: its length from the first
    /// frame boundary on, in frame units.
    pub open spec fn frame_capacity(self) -> int {
        (self.end - crate::addr::align_up_spec(self.start)) / crate::PAGE_SIZE as int
    }
}

} // verus!
