use tokyo::frame_alloc::KernelFrameAllocator;
use tokyo::heap::{HEAP_PAGES, HEAP_SIZE, HEAP_START};
use tokyo::mapper::{MapError, PageFlags, PageMapper, page_range};
use tokyo::region::{MemoryRegion, RegionKind};

const PAGE: u64 = 4096;

fn usable(start: u64, end: u64) -> MemoryRegion {
    MemoryRegion {
        start,
        end,
        kind: RegionKind::Usable,
    }
}

fn reserved(start: u64, end: u64) -> MemoryRegion {
    MemoryRegion {
        start,
        end,
        kind: RegionKind::Reserved,
    }
}

#[test]
fn frame_allocator_picks_first_large_usable_region() {
    let regions = vec![
        reserved(0, 0x4000_0000),
        usable(0x1000, 0x2000),
        usable(0x10_0000, 0x10_0000 + 2 * HEAP_SIZE),
        usable(0x8000_0000, 0x8000_0000 + 2 * HEAP_SIZE),
    ];
    let alloc = KernelFrameAllocator::new(&regions).expect("a large usable region exists");
    let region = alloc.backing_region();
    assert_eq!(region.start, 0x10_0000);
    assert_eq!(region.end, 0x10_0000 + 2 * HEAP_SIZE);
    assert_eq!(region.kind, RegionKind::Usable);
}

#[test]
fn frame_allocator_fails_without_large_usable_region() {
    let regions = vec![
        reserved(0, 0x4000_0000),
        usable(0x1000, 0x1000 + HEAP_SIZE - 1),
    ];
    assert!(KernelFrameAllocator::new(&regions).is_none());
}

#[test]
fn allocated_frames_are_distinct_and_ascending() {
    let regions = vec![usable(0x10_0000, 0x10_0000 + 2 * HEAP_SIZE)];
    let mut alloc = KernelFrameAllocator::new(&regions).unwrap();
    let f1 = alloc.allocate_frame().unwrap();
    let f2 = alloc.allocate_frame().unwrap();
    let f3 = alloc.allocate_frame().unwrap();
    assert_eq!(f1, 0x10_0000);
    assert_eq!(f2, 0x10_0000 + PAGE);
    assert_eq!(f3, 0x10_0000 + 2 * PAGE);
    assert_ne!(f1, f2);
    assert_ne!(f2, f3);
    assert_ne!(f1, f3);
}

#[test]
fn allocator_aligns_frames_within_unaligned_region() {
    let start = 0x10_0000 + 0x123;
    let regions = vec![usable(start, start + 2 * HEAP_SIZE)];
    let mut alloc = KernelFrameAllocator::new(&regions).unwrap();
    let f = alloc.allocate_frame().unwrap();
    assert_eq!(f % PAGE, 0);
    assert!(f >= start);
    assert!(f + PAGE <= start + 2 * HEAP_SIZE);
}

#[test]
fn every_issued_frame_lies_in_the_usable_region() {
    let regions = vec![usable(0x20_0000, 0x20_0000 + HEAP_SIZE)];
    let mut alloc = KernelFrameAllocator::new(&regions).unwrap();
    let region = alloc.backing_region();
    let mut issued = Vec::new();
    while let Some(f) = alloc.allocate_frame() {
        assert!(region.start <= f);
        assert!(f + PAGE <= region.end);
        assert_eq!(f % PAGE, 0);
        issued.push(f);
    }
    // a region of exactly HEAP_SIZE aligned bytes holds HEAP_PAGES frames,
    // after which the allocator reports exhaustion
    assert_eq!(issued.len() as u64, HEAP_PAGES);
    assert!(alloc.allocate_frame().is_none());
    issued.sort_unstable();
    issued.dedup();
    assert_eq!(issued.len() as u64, HEAP_PAGES);
}

#[test]
fn address_arithmetic_follows_the_page_grid() {
    assert_eq!(tokyo::addr::align_down(0x1234), 0x1000);
    assert_eq!(tokyo::addr::align_down(0x1000), 0x1000);
    assert_eq!(tokyo::addr::align_down(0xfff), 0);
    assert_eq!(tokyo::addr::align_up(0x1234), Some(0x2000));
    assert_eq!(tokyo::addr::align_up(0x1000), Some(0x1000));
    assert_eq!(tokyo::addr::align_up(u64::MAX), None);
    assert_eq!(tokyo::addr::page_index(0x3fff), 3);
    assert_eq!(tokyo::addr::page_index(0x4000), 4);
}

#[test]
fn canonical_addresses_and_linear_translation() {
    assert!(tokyo::addr::check_canonical(0));
    assert!(tokyo::addr::check_canonical(0x7fff_ffff_ffff));
    assert!(!tokyo::addr::check_canonical(0x8000_0000_0000));
    assert!(tokyo::addr::check_canonical(0xffff_8000_0000_0000));
    assert_eq!(
        tokyo::addr::translate_phys(0x1000_0000_0000, 0x42000),
        Some(0x1000_0004_2000)
    );
    assert_eq!(tokyo::addr::translate_phys(u64::MAX, 1), None);
}

#[test]
fn page_range_covers_containing_pages() {
    let r = page_range(0x1000, 0x2000);
    assert_eq!(r.first, 1);
    assert_eq!(r.last, 2);
    assert_eq!(r.count(), 2);

    let r = page_range(4095, 2);
    assert_eq!(r.first, 0);
    assert_eq!(r.last, 1);

    let r = page_range(0x2000, 1);
    assert_eq!(r.first, 2);
    assert_eq!(r.last, 2);
    assert_eq!(r.count(), 1);
}

#[test]
fn map_page_rejects_a_page_mapped_twice() {
    let mut mapper = PageMapper::new(0);
    let flags = PageFlags {
        present: true,
        writable: true,
    };
    assert!(mapper.map_page(5, 0x1000, flags).is_ok());
    assert!(!mapper.has_page(4));
    assert!(mapper.has_page(5));
    assert_eq!(
        mapper.map_page(5, 0x2000, flags),
        Err(MapError::PageAlreadyMapped)
    );
    assert_eq!(mapper.entry_count(), 1);
}

#[test]
fn map_appends_to_existing_mappings_without_rollback() {
    let regions = vec![usable(0x40_0000, 0x40_0000 + 2 * HEAP_SIZE)];
    let mut alloc = KernelFrameAllocator::new(&regions).unwrap();
    let mut mapper = PageMapper::new(0x7000_0000_0000);
    let flags = PageFlags {
        present: true,
        writable: true,
    };
    mapper.map_page(999, 0x9000, flags).unwrap();

    let range = page_range(0x10_000, 3 * 4096);
    assert_eq!(range.first, 16);
    assert_eq!(range.last, 18);
    tokyo::mapper::map(range, &mut mapper, &mut alloc).expect("nothing premapped");

    assert_eq!(mapper.entry_count(), 4);
    assert_eq!(mapper.entry_at(0).page, 999);
    for (i, page) in (16..19).enumerate() {
        let e = mapper.entry_at(i + 1);
        assert_eq!(e.page, page);
        assert!(e.flags.present && e.flags.writable);
    }
    assert_eq!(mapper.physical_offset(), 0x7000_0000_0000);

    // a second run over the same range fails: the pages are mapped now
    let again = tokyo::mapper::map(range, &mut mapper, &mut alloc);
    assert_eq!(again, Err(MapError::PageAlreadyMapped));
}

#[test]
fn heap_init_maps_exactly_the_heap_window() {
    let regions = vec![usable(0x100_0000, 0x100_0000 + 2 * HEAP_SIZE)];
    let mut alloc = KernelFrameAllocator::new(&regions).unwrap();
    let mut mapper = PageMapper::new(0);
    tokyo::heap::init(&mut mapper, &mut alloc).expect("heap window maps");

    let first_page = HEAP_START / PAGE;
    assert_eq!(mapper.entry_count() as u64, HEAP_PAGES);
    for i in 0..mapper.entry_count() {
        let e = mapper.entry_at(i);
        assert_eq!(e.page, first_page + i as u64);
        assert!(e.flags.present);
        assert!(e.flags.writable);
        assert_eq!(e.frame % PAGE, 0);
        assert!(e.frame >= 0x100_0000);
        assert!(e.frame + PAGE <= 0x100_0000 + 2 * HEAP_SIZE);
    }
    assert!(mapper.has_page(first_page));
    assert!(mapper.has_page(first_page + HEAP_PAGES - 1));
    assert!(!mapper.has_page(first_page - 1));
    assert!(!mapper.has_page(first_page + HEAP_PAGES));
}

#[test]
fn heap_init_reports_frame_exhaustion() {
    let regions = vec![usable(0x100_0000, 0x100_0000 + HEAP_SIZE)];
    let mut alloc = KernelFrameAllocator::new(&regions).unwrap();
    // one frame gone: the window no longer fits
    alloc.allocate_frame().unwrap();
    let mut mapper = PageMapper::new(0);
    assert_eq!(
        tokyo::heap::init(&mut mapper, &mut alloc),
        Err(MapError::FrameAllocationFailed)
    );
    // no rollback: the pages mapped before exhaustion stay mapped
    assert_eq!(mapper.entry_count() as u64, HEAP_PAGES - 1);
}

#[test]
fn heap_init_reports_a_premapped_page() {
    let regions = vec![usable(0x100_0000, 0x100_0000 + 2 * HEAP_SIZE)];
    let mut alloc = KernelFrameAllocator::new(&regions).unwrap();
    let mut mapper = PageMapper::new(0);
    let flags = PageFlags {
        present: true,
        writable: true,
    };
    let in_window = HEAP_START / PAGE + 7;
    mapper.map_page(in_window, 0xdead_000, flags).unwrap();
    assert_eq!(
        tokyo::heap::init(&mut mapper, &mut alloc),
        Err(MapError::PageAlreadyMapped)
    );
}
