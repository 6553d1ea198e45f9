//! Arithmetic on physical and virtual addresses.
//!
//! Addresses are plain `u64` values; a frame or page is identified by its
//! 4 KiB-aligned base address or, equivalently, by its index.

use vstd::prelude::*;

verus! {

use crate::PAGE_SIZE;

/// The index of the page (or frame) containing `addr`.
pub open spec fn page_index_spec(addr: u64) -> int {
    addr as int / PAGE_SIZE as int
}

/// `addr` rounded down to the base of its page (or frame).
pub open spec fn align_down_spec(addr: u64) -> int {
    addr as int - (addr as int % PAGE_SIZE as int)
}

/// Whether `addr` is the base of a page (or frame).
pub open spec fn is_aligned(addr: u64) -> bool {
    addr as int % PAGE_SIZE as int == 0
}

/// `addr` rounded up to the next page (or frame) base, as an unbounded
/// integer.
pub open spec fn align_up_spec(addr: u64) -> int {
    if is_aligned(addr) {
        addr as int
    } else {
        addr as int + PAGE_SIZE - (addr as int % PAGE_SIZE as int)
    }
}

/// Rounds an address down to the containing page (or frame) base.
pub fn align_down(addr: u64) -> (r: u64)
    ensures
        r == align_down_spec(addr),
        is_aligned(r),
        r <= addr,
        addr - r < PAGE_SIZE,
{
    addr - (addr % PAGE_SIZE)
}

/// Rounds an address up to the next page (or frame) base.
pub fn align_up(addr: u64) -> (r: Option<u64>)
    ensures
        match r {
            Some(a) => {
                &&& a == align_up_spec(addr)
                &&& is_aligned(a)
                &&& addr <= a
                &&& a - addr < PAGE_SIZE
            },
            None => align_up_spec(addr) > u64::MAX,
        },
{
    let rem = addr % PAGE_SIZE;
    if rem == 0 {
        Some(addr)
    } else if addr <= u64::MAX - (PAGE_SIZE - rem) {
        Some(addr + (PAGE_SIZE - rem))
    } else {
        None
    }
}

/// The index of the page (or frame) containing `addr`.
pub fn page_index(addr: u64) -> (r: u64)
    ensures
        r == page_index_spec(addr),
{
    addr / PAGE_SIZE
}

/// Whether `addr` is canonical in the x86-64 sense: bits 48..64 are a copy
/// of bit 47.
pub open spec fn is_canonical(addr: u64) -> bool {
    addr < 0x8000_0000_0000 || addr >= 0xffff_8000_0000_0000
}

/// Checks that a virtual address is canonical.
pub fn check_canonical(addr: u64) -> (r: bool)
    ensures
        r == is_canonical(addr),
{
    addr < 0x8000_0000_0000 || addr >= 0xffff_8000_0000_0000
}

/// Translates a physical address to a virtual one through the boot-supplied
/// linear offset mapping all physical memory into the kernel address space.
/// Fails only when the sum leaves the address space.
pub fn translate_phys(physical_offset: u64, phys: u64) -> (r: Option<u64>)
    ensures
        match r {
            Some(v) => v == physical_offset + phys,
            None => physical_offset + phys > u64::MAX,
        },
{
    physical_offset.checked_add(phys)
}

} // verus!
