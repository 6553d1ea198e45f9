//! The boot sequence: the order in which the subsystems come up, and the
//! guarantee that a failure aborts initialization before interrupts are
//! ever enabled. The shell mirrors each step against the hardware; every
//! decision - which region backs the allocator, which pages are mapped,
//! which vectors are bound - is made and checked here.

use vstd::prelude::*;

verus! {

use crate::addr::is_canonical;
use crate::critical::CoreState;
use crate::frame_alloc::KernelFrameAllocator;
use crate::gdt::{GdtTss, StackRegion};
use crate::heap::{HEAP_PAGES, HEAP_SIZE, heap_page_range};
use crate::idt::{InterruptTable, PIC_OFFSET};
use crate::mapper::{MapError, PageFlags, PageMapper, seq_has_page, seq_maps_with};
use crate::pic::PicPair;
use crate::region::MemoryRegion;
use crate::render::{BufView, FrameBufferInfo, converter_for_spec};

/// What the boot loader hands the kernel at entry, as plain values, plus
/// the two stacks the kernel links in.
pub struct BootParams {
    pub memory_regions: Vec<MemoryRegion>,
    pub physical_memory_offset: Option<u64>,
    pub framebuffer: Option<FrameBufferInfo>,
    pub kernel_stack: StackRegion,
    pub fault_stack: StackRegion,
}

/// Why boot aborted. Every failure is fatal: there is no fallback source to
/// retry against, and interrupts are never enabled after one.
#[derive(Clone, Copy, Debug, PartialEq, Eq, Structural)]
pub enum BootError {
    /// The boot loader reported no linear physical-memory offset.
    MissingPhysicalMemoryOffset,
    /// The reported offset is not a canonical virtual address.
    NonCanonicalOffset,
    /// No usable region of at least `HEAP_SIZE` bytes exists.
    NoUsableRegion,
    /// Mapping the heap window failed.
    HeapMap(MapError),
    /// The boot loader reported no frame buffer.
    MissingFramebuffer,
    /// The frame buffer's layout has no supported converter.
    UnsupportedPixelFormat,
}

/// The kernel's state as boot leaves it. Fields stay `None` past the point
/// where boot aborted.
pub struct Kernel {
    pub mapper: Option<PageMapper>,
    pub frame_allocator: Option<KernelFrameAllocator>,
    pub heap_ready: bool,
    pub view: Option<BufView>,
    pub gdt: Option<GdtTss>,
    pub idt: Option<InterruptTable>,
    pub pics: Option<PicPair>,
    pub core: CoreState,
}

/// Whether the reported linear offset is usable.
pub open spec fn offset_ok(params: BootParams) -> bool {
    params.physical_memory_offset matches Some(o) && is_canonical(o)
}

/// Whether the heap window can be backed: a candidate region exists and its
/// first frame boundary leaves at least `HEAP_PAGES` whole frames.
pub open spec fn heap_feasible(params: BootParams) -> bool {
    KernelFrameAllocator::first_candidate(params.memory_regions@) matches Some(rg)
        && rg.frame_capacity() >= HEAP_PAGES
}

/// Whether the reported frame buffer has a supported layout.
pub open spec fn framebuffer_ok(params: BootParams) -> bool {
    params.framebuffer matches Some(f) && converter_for_spec(f.pixel_format, f.bytes_per_pixel)
        is Some
}

/// What `boot_sequence` guarantees: the outcome - success or the exact
/// failure - is a function of the boot parameters; a failed boot never
/// enabled interrupts; and a successful boot leaves every subsystem up, in
/// the required order - heap mapped before use, table loaded and
/// controllers initialized before the final enable.
pub open spec fn boot_post(params: BootParams, k: Kernel, r: Result<(), BootError>) -> bool {
    &&& (r is Err ==> !k.core.interrupts_enabled())
    &&& (r is Ok <==> offset_ok(params) && heap_feasible(params) && framebuffer_ok(params))
    &&& (params.physical_memory_offset is None <==> r == Err::<(), BootError>(
        BootError::MissingPhysicalMemoryOffset,
    ))
    &&& ((params.physical_memory_offset matches Some(o) && !is_canonical(o)) <==> r == Err::<
        (),
        BootError,
    >(BootError::NonCanonicalOffset))
    &&& ((offset_ok(params) && (forall|i: int|
        0 <= i < params.memory_regions@.len() ==> !(#[trigger] params.memory_regions@[i]).usable_with(
            HEAP_SIZE,
        ))) <==> r == Err::<(), BootError>(BootError::NoUsableRegion))
    &&& ((offset_ok(params)
        && (KernelFrameAllocator::first_candidate(params.memory_regions@) matches Some(rg)
        && rg.frame_capacity() < HEAP_PAGES)) <==> r == Err::<(), BootError>(
        BootError::HeapMap(MapError::FrameAllocationFailed),
    ))
    &&& (r matches Err(BootError::HeapMap(m)) ==> m == MapError::FrameAllocationFailed)
    &&& ((offset_ok(params) && heap_feasible(params) && params.framebuffer is None) <==> r
        == Err::<(), BootError>(BootError::MissingFramebuffer))
    &&& ((offset_ok(params) && heap_feasible(params) && (params.framebuffer matches Some(f)
        && converter_for_spec(f.pixel_format, f.bytes_per_pixel) is None)) <==> r == Err::<
        (),
        BootError,
    >(BootError::UnsupportedPixelFormat))
    &&& (r is Ok ==> {
        &&& k.core.interrupts_enabled()
        &&& k.core.disciplined()
        &&& !k.core.lock_held()
        &&& (k.idt matches Some(t) && t.is_loaded() && t.built_with(PIC_OFFSET))
        &&& (k.pics matches Some(p) && p.is_initialized() && p.offset() == PIC_OFFSET)
        &&& (k.gdt matches Some(g) && g.configured(params.kernel_stack, params.fault_stack))
        &&& k.heap_ready
        &&& (k.frame_allocator matches Some(a) && a.wf())
        &&& (k.mapper matches Some(m) && {
            &&& m.wf()
            &&& forall|p: u64|
                heap_page_range().first <= p <= heap_page_range().last
                    ==> #[trigger] seq_maps_with(
                    m.entries(),
                    p,
                    PageFlags { present: true, writable: true },
                )
            &&& forall|p: u64|
                #[trigger] seq_has_page(m.entries(), p) ==> heap_page_range().first <= p
                    <= heap_page_range().last
        })
        &&& (k.view matches Some(v) && v.wf() && (params.framebuffer matches Some(f)
            && v.info_spec() == f))
    })
}

/// Brings the kernel up in the mandated order: frame allocator from the
/// memory map, page mapper from the linear offset, heap mapped and made
/// ready, frame buffer view built, segments and fault stack installed,
/// vector table built and loaded, controllers remapped - and only then,
/// with everything standing, interrupt delivery enabled. Any failure stops
/// the sequence with interrupts still disabled.
pub fn boot_sequence(params: BootParams) -> (res: (Kernel, Result<(), BootError>))
    requires
        forall|i: int| 0 <= i < params.memory_regions@.len() ==> (#[trigger] params.memory_regions@[i]).wf(),
        params.kernel_stack.wf(),
        params.fault_stack.wf(),
        StackRegion::disjoint(params.fault_stack, params.kernel_stack),
        params.framebuffer matches Some(f) ==> f.wf(),
    ensures
        boot_post(params, res.0, res.1),
{
    let mut k = Kernel {
        mapper: None,
        frame_allocator: None,
        heap_ready: false,
        view: None,
        gdt: None,
        idt: None,
        pics: None,
        core: CoreState::new(),
    };
    let offset = match params.physical_memory_offset {
        Some(o) => o,
        None => {
            return (k, Err(BootError::MissingPhysicalMemoryOffset));
        },
    };
    if !crate::addr::check_canonical(offset) {
        return (k, Err(BootError::NonCanonicalOffset));
    }
    let mut mapper = PageMapper::new(offset);
    let mut frame_allocator = match KernelFrameAllocator::new(&params.memory_regions) {
        Some(a) => a,
        None => {
            return (k, Err(BootError::NoUsableRegion));
        },
    };
    proof {
        let i = choose|i: int|
            KernelFrameAllocator::picked_region(
                params.memory_regions@,
                i,
                frame_allocator.region(),
            );
        assert(KernelFrameAllocator::picked_region(
            params.memory_regions@,
            i,
            frame_allocator.region(),
        ));
    }
    let ghost m0 = mapper.entries();
    let ghost a0 = frame_allocator;
    proof {
        assert forall|p: u64| !(#[trigger] seq_has_page(m0, p)) by {
            if seq_has_page(m0, p) {
                let j = choose|j: int| 0 <= j < m0.len() && (#[trigger] m0[j]).page == p;
                assert(false);
            }
        }
        crate::frame_alloc::lemma_count_clear_all_clear(a0.bits());
        assert(a0.free_frames() == a0.bits().len());
    }
    match crate::heap::init(&mut mapper, &mut frame_allocator) {
        Ok(()) => {
            proof {
                assert(HEAP_PAGES <= a0.free_frames());
                assert(a0.region().frame_capacity() >= HEAP_PAGES);
            }
        },
        Err(e) => {
            proof {
                if e == MapError::PageAlreadyMapped {
                    let p = choose|p: u64|
                        heap_page_range().first <= p <= heap_page_range().last
                            && #[trigger] seq_has_page(m0, p);
                    assert(seq_has_page(m0, p));
                    let j = choose|j: int| 0 <= j < m0.len() && (#[trigger] m0[j]).page == p;
                    assert(false);
                }
                assert(e == MapError::FrameAllocationFailed);
                assert(a0.free_frames() < HEAP_PAGES);
                assert(a0.region().frame_capacity() < HEAP_PAGES);
            }
            return (k, Err(BootError::HeapMap(e)));
        },
    }
    // the shell initializes the downstream dynamic allocator over the
    // now-mapped window before anything allocates
    k.heap_ready = true;
    proof {
        crate::heap::lemma_heap_mapped_exactly(mapper.entries(), frame_allocator.region());
    }
    k.mapper = Some(mapper);
    k.frame_allocator = Some(frame_allocator);
    let fb = match params.framebuffer {
        Some(f) => f,
        None => {
            return (k, Err(BootError::MissingFramebuffer));
        },
    };
    let view = match BufView::from_info(fb) {
        Some(v) => v,
        None => {
            return (k, Err(BootError::UnsupportedPixelFormat));
        },
    };
    k.view = Some(view);
    k.gdt = Some(crate::gdt::init(params.kernel_stack, params.fault_stack));
    let mut idt = InterruptTable::new(PIC_OFFSET);
    idt.load();
    k.idt = Some(idt);
    let mut pics = PicPair::new(PIC_OFFSET);
    pics.initialize();
    k.pics = Some(pics);
    k.core.enable_interrupts();
    (k, Ok(()))
}

/// Law: after a successful boot, the loaded table's timer and keyboard
/// bindings sit exactly at the controllers' configured base and one vector
/// above it.
pub proof fn lemma_booted_vectors_match_controller(
    params: BootParams,
    k: Kernel,
    r: Result<(), BootError>,
)
    requires
        boot_post(params, k, r),
        r is Ok,
    ensures
        k.idt matches Some(t) && k.pics matches Some(p) && {
            &&& t.is_loaded()
            &&& (t.entry(p.offset() as int) matches Some(e) && e.handler
                == crate::idt::HandlerKind::Timer)
            &&& (t.entry(p.offset() as int + 1) matches Some(e) && e.handler
                == crate::idt::HandlerKind::Keyboard)
        },
{
    let t = k.idt->0;
    let p = k.pics->0;
    crate::idt::lemma_timer_keyboard_vectors(t, PIC_OFFSET);
    assert(p.offset() == PIC_OFFSET);
}

/// Law: on a memory map with no usable region of at least `HEAP_SIZE`
/// bytes, boot fails deterministically on the frame-allocation stage, and
/// interrupts are never enabled afterward.
pub proof fn lemma_no_usable_region_aborts_boot(
    params: BootParams,
    k: Kernel,
    r: Result<(), BootError>,
)
    requires
        boot_post(params, k, r),
        params.physical_memory_offset matches Some(o) && is_canonical(o),
        forall|i: int|
            0 <= i < params.memory_regions@.len() ==> !(#[trigger] params.memory_regions@[i]).usable_with(
                HEAP_SIZE,
            ),
    ensures
        r == Err::<(), BootError>(BootError::NoUsableRegion),
        !k.core.interrupts_enabled(),
{
}

} // verus!
