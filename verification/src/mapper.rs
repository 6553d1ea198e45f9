//! The page mapper: the kernel's model of the virtual-to-physical
//! translations it installs. Each installed mapping is recorded here; the
//! unverified shell replays every recorded entry against the live page
//! tables (installing the translation and invalidating the stale
//! translation-cache entry) in the same order.

use vstd::prelude::*;

verus! {

use crate::PAGE_SIZE;
use crate::addr::is_canonical;
use crate::frame_alloc::{KernelFrameAllocator, count_clear};
use crate::region::MemoryRegion;

/// Access flags of an installed mapping.
#[derive(Clone, Copy, Debug, PartialEq, Eq, Structural)]
pub struct PageFlags {
    pub present: bool,
    pub writable: bool,
}

impl PageFlags {
    /// The flags every boot-time mapping is installed with.
    pub fn present_writable() -> (r: PageFlags)
        ensures
            r.present && r.writable,
    {
        PageFlags { present: true, writable: true }
    }
}

/// Why a mapping operation failed. A partial failure leaves the pages
/// already mapped in place: callers must treat it as fatal, not as a
/// partially usable result.
#[derive(Clone, Copy, Debug, PartialEq, Eq, Structural)]
pub enum MapError {
    /// The frame allocator ran out of usable frames.
    FrameAllocationFailed,
    /// The virtual page already carries a mapping.
    PageAlreadyMapped,
}

/// One installed mapping: virtual page number to physical frame base, with
/// its access flags.
#[derive(Clone, Copy, Debug, PartialEq, Eq, Structural)]
pub struct MappingEntry {
    pub page: u64,
    pub frame: u64,
    pub flags: PageFlags,
}

/// An inclusive range of virtual page numbers.
#[derive(Clone, Copy, Debug, PartialEq, Eq, Structural)]
pub struct PageRange {
    pub first: u64,
    pub last: u64,
}

impl PageRange {
    /// Page numbers index 4 KiB units of the 64-bit address space, so they
    /// stay below 2^52.
    pub open spec fn wf(self) -> bool {
        self.first <= self.last < 0x10_0000_0000_0000u64
    }

    /// Number of pages in the range.
    pub open spec fn count_spec(self) -> int {
        self.last - self.first + 1
    }

    pub fn count(self) -> (r: u64)
        requires
            self.wf(),
        ensures
            r == self.count_spec(),
    {
        self.last - self.first + 1
    }
}

/// The range of pages containing the window of `size` bytes at `start`.
pub fn page_range(start: u64, size: u64) -> (r: PageRange)
    requires
        size >= 1,
        start + size - 1 <= u64::MAX,
    ensures
        r.first == start as int / PAGE_SIZE as int,
        r.last == (start + size - 1) as int / PAGE_SIZE as int,
        r.wf(),
{
    let first = start / PAGE_SIZE;
    let last = (start + (size - 1)) / PAGE_SIZE;
    proof {
        assert(last < 0x10_0000_0000_0000u64) by (nonlinear_arith)
            requires
                last == (start + size - 1) as int / PAGE_SIZE as int,
                start + size - 1 <= u64::MAX,
                PAGE_SIZE == 4096,
        ;
    }
    PageRange { first, last }
}

/// Whether some entry of `s` maps page `p`.
pub open spec fn seq_has_page(s: Seq<MappingEntry>, p: u64) -> bool {
    exists|i: int| 0 <= i < s.len() && (#[trigger] s[i]).page == p
}

/// Whether some entry of `s` maps page `p` with flags `fl`.
pub open spec fn seq_maps_with(s: Seq<MappingEntry>, p: u64, fl: PageFlags) -> bool {
    exists|i: int| 0 <= i < s.len() && (#[trigger] s[i]).page == p && s[i].flags == fl
}

/// Whether frame base `f` denotes a whole frame inside region `r`.
pub open spec fn frame_in_region(r: MemoryRegion, f: u64) -> bool {
    &&& r.start <= f
    &&& f + PAGE_SIZE <= r.end
    &&& f as int % PAGE_SIZE as int == 0
}

/// Maintains the translations this kernel has installed, keyed by virtual
/// page number. Constructed over the boot-supplied linear physical-memory
/// offset; the caller of the shell guarantees that offset is the live one,
/// an unchecked contract of the boot protocol.
pub struct PageMapper {
    physical_offset: u64,
    entries: Vec<MappingEntry>,
}

impl PageMapper {
    /// The linear offset mapping all physical memory into virtual space.
    pub closed spec fn offset(self) -> u64 {
        self.physical_offset
    }

    /// The installed mappings, oldest first.
    pub closed spec fn entries(self) -> Seq<MappingEntry> {
        self.entries@
    }

    /// No page is mapped twice.
    pub open spec fn wf(self) -> bool {
        forall|i: int, j: int|
            #![trigger self.entries()[i], self.entries()[j]]
            0 <= i < j < self.entries().len() ==> self.entries()[i].page
                != self.entries()[j].page
    }

    /// Whether `page` carries a mapping.
    pub open spec fn is_mapped(self, page: u64) -> bool {
        seq_has_page(self.entries(), page)
    }

    /// A fresh mapper over the given linear offset, with nothing installed.
    pub fn new(physical_offset: u64) -> (r: PageMapper)
        requires
            is_canonical(physical_offset),
        ensures
            r.offset() == physical_offset,
            r.entries() == Seq::<MappingEntry>::empty(),
            r.wf(),
    {
        let r = PageMapper { physical_offset, entries: Vec::new() };
        proof {
            assert(r.entries() =~= Seq::<MappingEntry>::empty());
        }
        r
    }

    /// Whether `page` already carries a mapping.
    pub fn has_page(&self, page: u64) -> (r: bool)
        ensures
            r == self.is_mapped(page),
    {
        let n = self.entries.len();
        let mut i: usize = 0;
        while i < n
            invariant
                i <= n,
                n == self.entries@.len(),
                forall|j: int| 0 <= j < i ==> (#[trigger] self.entries@[j]).page != page,
            decreases n - i,
        {
            if self.entries[i].page == page {
                return true;
            }
            i += 1;
        }
        false
    }

    /// Number of installed mappings.
    pub fn entry_count(&self) -> (r: usize)
        ensures
            r == self.entries().len(),
    {
        self.entries.len()
    }

    /// The `i`-th installed mapping, oldest first: the order in which the
    /// shell must replay them against the live page tables.
    pub fn entry_at(&self, i: usize) -> (r: MappingEntry)
        requires
            i < self.entries().len(),
        ensures
            r == self.entries()[i as int],
    {
        self.entries[i]
    }

    /// The linear physical-memory offset the mapper was constructed over.
    pub fn physical_offset(&self) -> (r: u64)
        ensures
            r == self.offset(),
    {
        self.physical_offset
    }

    /// Installs one mapping, refusing a page that is already mapped.
    pub fn map_page(&mut self, page: u64, frame: u64, flags: PageFlags) -> (r: Result<
        (),
        MapError,
    >)
        requires
            old(self).wf(),
        ensures
            final(self).wf(),
            final(self).offset() == old(self).offset(),
            r is Ok ==> {
                &&& !old(self).is_mapped(page)
                &&& final(self).entries() == old(self).entries().push(
                    MappingEntry { page, frame, flags },
                )
            },
            r is Err ==> {
                &&& r matches Err(e) && e == MapError::PageAlreadyMapped
                &&& old(self).is_mapped(page)
                &&& final(self).entries() == old(self).entries()
            },
    {
        if self.has_page(page) {
            Err(MapError::PageAlreadyMapped)
        } else {
            let ghost pre = self.entries@;
            self.entries.push(MappingEntry { page, frame, flags });
            proof {
                assert forall|i: int, j: int|
                    #![trigger self.entries()[i], self.entries()[j]]
                    0 <= i < j < self.entries().len() implies self.entries()[i].page
                    != self.entries()[j].page by {
                    if j == self.entries().len() - 1 {
                        assert(pre[i] == self.entries()[i]);
                        assert(!seq_has_page(pre, page));
                        assert((#[trigger] pre[i]).page != page);
                    }
                }
            }
            Ok(())
        }
    }
}

/// How a run of `map` extends the mapper: the old entries are kept as a
/// prefix, and every appended entry maps the next page of the range, in
/// ascending order, present and writable, to a whole frame of the
/// allocator's usable region.
pub open spec fn entries_extended(
    m0: Seq<MappingEntry>,
    m1: Seq<MappingEntry>,
    range: PageRange,
    rg: MemoryRegion,
) -> bool {
    &&& m1.len() >= m0.len()
    &&& m1.len() - m0.len() <= range.count_spec()
    &&& m1.subrange(0, m0.len() as int) == m0
    &&& forall|j: int|
        m0.len() <= j < m1.len() ==> {
            &&& (#[trigger] m1[j]).page == range.first + (j - m0.len())
            &&& m1[j].flags == (PageFlags { present: true, writable: true })
            &&& frame_in_region(rg, m1[j].frame)
        }
}

/// The precondition under which `map` is bound to succeed: no page of the
/// range is mapped yet, and the allocator holds at least one free frame per
/// page.
pub open spec fn map_ok_pre(
    m0: Seq<MappingEntry>,
    a0: KernelFrameAllocator,
    range: PageRange,
) -> bool {
    &&& range.count_spec() <= a0.free_frames()
    &&& forall|p: u64| range.first <= p <= range.last ==> !(#[trigger] seq_has_page(m0, p))
}

/// Walks the range in ascending page order; for each page draws one frame
/// from the allocator and installs a present, writable mapping. A failure
/// (frame exhaustion, or a page already mapped) aborts the remaining range
/// with no rollback of pages already mapped.
pub fn map(
    range: PageRange,
    mapper: &mut PageMapper,
    frame_allocator: &mut KernelFrameAllocator,
) -> (r: Result<(), MapError>)
    requires
        range.wf(),
        old(mapper).wf(),
        old(frame_allocator).wf(),
    ensures
        final(mapper).wf(),
        final(frame_allocator).wf(),
        final(mapper).offset() == old(mapper).offset(),
        KernelFrameAllocator::issued_subset(*old(frame_allocator), *final(frame_allocator)),
        final(frame_allocator).region() == old(frame_allocator).region(),
        entries_extended(
            old(mapper).entries(),
            final(mapper).entries(),
            range,
            old(frame_allocator).region(),
        ),
        map_ok_pre(old(mapper).entries(), *old(frame_allocator), range) ==> r is Ok,
        r is Ok ==> {
            &&& map_ok_pre(old(mapper).entries(), *old(frame_allocator), range)
            &&& final(mapper).entries().len() - old(mapper).entries().len()
                == range.count_spec()
            &&& final(frame_allocator).free_frames() == old(frame_allocator).free_frames()
                - range.count_spec()
        },
        r matches Err(e) && e == MapError::FrameAllocationFailed ==> {
            &&& old(frame_allocator).free_frames() < range.count_spec()
            &&& final(mapper).entries().len() - old(mapper).entries().len()
                == old(frame_allocator).free_frames()
            &&& final(frame_allocator).free_frames() == 0
        },
        r matches Err(e) && e == MapError::PageAlreadyMapped ==> {
            let added = final(mapper).entries().len() - old(mapper).entries().len();
            &&& added < range.count_spec()
            &&& added < old(frame_allocator).free_frames()
            &&& seq_has_page(old(mapper).entries(), (range.first + added) as u64)
            &&& final(frame_allocator).free_frames() == old(frame_allocator).free_frames()
                - added - 1
        },
{
    let ghost m0 = mapper.entries();
    let ghost a0 = *frame_allocator;
    let ghost off0 = mapper.offset();
    let n = range.count();
    let mut k: u64 = 0;
    proof {
        crate::frame_alloc::lemma_count_clear_bounds(a0.bits());
    }
    #[verifier::loop_isolation(false)]
    while k < n
        invariant
            0 <= k <= n,
            n == range.count_spec(),
            range.wf(),
            mapper.wf(),
            frame_allocator.wf(),
            mapper.offset() == off0,
            frame_allocator.region() == a0.region(),
            frame_allocator.base() == a0.base(),
            frame_allocator.bits().len() == a0.bits().len(),
            KernelFrameAllocator::issued_subset(a0, *frame_allocator),
            frame_allocator.free_frames() == a0.free_frames() - k,
            mapper.entries().len() == m0.len() + k,
            mapper.entries().subrange(0, m0.len() as int) == m0,
            forall|j: int|
                m0.len() <= j < mapper.entries().len() ==> {
                    &&& (#[trigger] mapper.entries()[j]).page == range.first + (j - m0.len())
                    &&& mapper.entries()[j].flags == (PageFlags {
                        present: true,
                        writable: true,
                    })
                    &&& frame_in_region(a0.region(), mapper.entries()[j].frame)
                },
            forall|p: u64|
                range.first <= p < range.first + k ==> !(#[trigger] seq_has_page(m0, p)),
        decreases n - k,
    {
        let page = range.first + k;
        let ghost a_before = *frame_allocator;
        let ghost m_before = mapper.entries();
        match frame_allocator.allocate_frame() {
            None => {
                proof {
                    assert(frame_allocator.bits() == a_before.bits());
                    crate::frame_alloc::lemma_count_clear_all_set(frame_allocator.bits());
                    assert(a0.free_frames() == k);
                }
                return Err(MapError::FrameAllocationFailed);
            },
            Some(frame) => {
                proof {
                    crate::frame_alloc::lemma_allocated_frame_in_usable_region(
                        a_before,
                        *frame_allocator,
                        frame,
                    );
                    let i = choose|i: int|
                        KernelFrameAllocator::allocate_at(a_before, *frame_allocator, frame, i);
                    assert(KernelFrameAllocator::allocate_at(
                        a_before,
                        *frame_allocator,
                        frame,
                        i,
                    ));
                    crate::frame_alloc::lemma_count_clear_pos(a_before.bits(), i);
                    crate::frame_alloc::lemma_count_clear_set_one(a_before.bits(), i);
                    assert forall|j: int|
                        0 <= j < a0.bits().len() && a0.bits()[j] implies #[trigger] frame_allocator
                        .bits()[j] by {
                        assert(a_before.bits()[j]);
                    }
                }
                match mapper.map_page(page, frame, PageFlags::present_writable()) {
                    Err(_) => {
                        proof {
                            let m = mapper.entries();
                            assert(seq_has_page(m, page));
                            let i = choose|i: int| 0 <= i < m.len() && (#[trigger] m[i]).page
                                == page;
                            assert(0 <= i < m.len() && m[i].page == page);
                            if i >= m0.len() {
                                assert(m[i].page == range.first + (i - m0.len()));
                                assert(false);
                            }
                            assert(m0[i] == m.subrange(0, m0.len() as int)[i]);
                            assert(seq_has_page(m0, page));
                            assert(!map_ok_pre(m0, a0, range));
                        }
                        return Err(MapError::PageAlreadyMapped);
                    },
                    Ok(()) => {
                        proof {
                            assert(mapper.entries() == m_before.push(
                                MappingEntry {
                                    page,
                                    frame,
                                    flags: PageFlags { present: true, writable: true },
                                },
                            ));
                            assert(mapper.entries().subrange(0, m0.len() as int) =~= m0);
                        }
                    },
                }
            },
        }
        k += 1;
    }
    proof {
        crate::frame_alloc::lemma_count_clear_bounds(frame_allocator.bits());
        assert forall|p: u64| range.first <= p <= range.last implies !(#[trigger] seq_has_page(
            m0,
            p,
        )) by {
            assert(range.first <= p < range.first + n);
        }
    }
    Ok(())
}

} // verus!
