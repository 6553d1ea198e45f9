//! Heap bootstrap: maps the fixed virtual heap window page by page and
//! declares it ready for the downstream dynamic allocator. The dynamic
//! allocator's own strategy is an outside capability; this component's sole
//! obligation is that the window is mapped, present and writable, before the
//! allocator first touches it. It must run exactly once: the boot sequence
//! holds the one-shot guard.

use vstd::prelude::*;

verus! {

use crate::PAGE_SIZE;
use crate::frame_alloc::KernelFrameAllocator;
use crate::mapper::{
    MapError, PageFlags, PageMapper, PageRange, entries_extended, map_ok_pre, page_range,
    seq_has_page, seq_maps_with,
};

/// First virtual address of the kernel heap window.
pub const HEAP_START: u64 = 0x4444_4444_0000;

/// Size of the kernel heap window in bytes.
pub const HEAP_SIZE: u64 = 5000 * 1024;

/// Number of pages backing the heap window.
pub const HEAP_PAGES: u64 = HEAP_SIZE / PAGE_SIZE;

/// The pages of the heap window.
pub open spec fn heap_page_range() -> PageRange {
    PageRange {
        first: HEAP_START / PAGE_SIZE,
        last: (HEAP_START / PAGE_SIZE + HEAP_PAGES - 1) as u64,
    }
}

/// Computes the page range covering `[HEAP_START, HEAP_START + HEAP_SIZE)`.
pub fn heap_range() -> (r: PageRange)
    ensures
        r == heap_page_range(),
        r.wf(),
        r.count_spec() == HEAP_PAGES,
{
    page_range(HEAP_START, HEAP_SIZE)
}

/// Maps exactly `HEAP_SIZE / PAGE_SIZE` pages starting at `HEAP_START`,
/// present and writable, drawing frames from the given allocator. Succeeds
/// if and only if no heap page is already mapped and enough free frames
/// remain; a failure is fatal to boot and leaves already-mapped pages in
/// place.
pub fn init(mapper: &mut PageMapper, frame_allocator: &mut KernelFrameAllocator) -> (r: Result<
    (),
    MapError,
>)
    requires
        old(mapper).wf(),
        old(frame_allocator).wf(),
    ensures
        final(mapper).wf(),
        final(frame_allocator).wf(),
        final(mapper).offset() == old(mapper).offset(),
        KernelFrameAllocator::issued_subset(*old(frame_allocator), *final(frame_allocator)),
        final(frame_allocator).region() == old(frame_allocator).region(),
        entries_extended(
            old(mapper).entries(),
            final(mapper).entries(),
            heap_page_range(),
            old(frame_allocator).region(),
        ),
        r is Ok <==> map_ok_pre(old(mapper).entries(), *old(frame_allocator), heap_page_range()),
        r is Ok ==> {
            &&& final(mapper).entries().len() == old(mapper).entries().len() + HEAP_PAGES
            &&& final(frame_allocator).free_frames() == old(frame_allocator).free_frames()
                - HEAP_PAGES
            &&& forall|p: u64|
                heap_page_range().first <= p <= heap_page_range().last ==> seq_maps_with(
                    final(mapper).entries(),
                    p,
                    PageFlags { present: true, writable: true },
                )
        },
        r matches Err(e) && e == MapError::FrameAllocationFailed ==> old(
            frame_allocator,
        ).free_frames() < HEAP_PAGES,
        r matches Err(e) && e == MapError::PageAlreadyMapped ==> exists|p: u64|
            heap_page_range().first <= p <= heap_page_range().last && #[trigger] seq_has_page(
                old(mapper).entries(),
                p,
            ),
{
    let ghost m0 = mapper.entries();
    let range = heap_range();
    let r = crate::mapper::map(range, mapper, frame_allocator);
    proof {
        if r is Ok {
            assert forall|p: u64|
                heap_page_range().first <= p <= heap_page_range().last implies seq_maps_with(
                mapper.entries(),
                p,
                PageFlags { present: true, writable: true },
            ) by {
                let j = m0.len() + (p - heap_page_range().first);
                assert((#[trigger] mapper.entries()[j]).page == p);
            }
        }
        if r matches Err(e) && e == MapError::PageAlreadyMapped {
            let added = mapper.entries().len() - m0.len();
            let p = (heap_page_range().first + added) as u64;
            assert(heap_page_range().first <= p <= heap_page_range().last);
            assert(seq_has_page(m0, p));
        }
    }
    r
}

/// Law: a successful heap bootstrap on a fresh mapper maps exactly the
/// `HEAP_SIZE / PAGE_SIZE` pages starting at `HEAP_START` - every heap page
/// present and writable, and no page outside the window mapped at all.
pub proof fn lemma_heap_mapped_exactly(m1: Seq<crate::mapper::MappingEntry>, rg: crate::region::MemoryRegion)
    requires
        entries_extended(Seq::empty(), m1, heap_page_range(), rg),
        m1.len() == HEAP_PAGES,
    ensures
        forall|p: u64|
            #[trigger] seq_has_page(m1, p) <==> heap_page_range().first <= p
                <= heap_page_range().last,
        forall|p: u64|
            heap_page_range().first <= p <= heap_page_range().last ==> #[trigger] seq_maps_with(
                m1,
                p,
                PageFlags { present: true, writable: true },
            ),
{
    assert forall|p: u64|
        heap_page_range().first <= p <= heap_page_range().last implies #[trigger] seq_maps_with(
        m1,
        p,
        PageFlags { present: true, writable: true },
    ) by {
        let j = p - heap_page_range().first;
        assert((#[trigger] m1[j]).page == p);
    }
    assert forall|p: u64|
        heap_page_range().first <= p <= heap_page_range().last implies #[trigger] seq_has_page(
        m1,
        p,
    ) by {
        let j = p - heap_page_range().first;
        assert((#[trigger] m1[j]).page == p);
    }
    assert forall|p: u64| #[trigger] seq_has_page(m1, p) implies heap_page_range().first <= p
        <= heap_page_range().last by {
        let i = choose|i: int| 0 <= i < m1.len() && (#[trigger] m1[i]).page == p;
        assert(m1[i].page == heap_page_range().first + i);
    }
}

} // verus!
