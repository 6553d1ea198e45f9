use tokyo::boot::{BootError, BootParams, boot_sequence};
use tokyo::critical::CoreState;
use tokyo::gdt::StackRegion;
use tokyo::heap::HEAP_SIZE;
use tokyo::idt::PIC_OFFSET;
use tokyo::mapper::MapError;
use tokyo::region::{MemoryRegion, RegionKind};
use tokyo::render::{FrameBufferInfo, PixelFormat};

fn good_framebuffer() -> FrameBufferInfo {
    FrameBufferInfo {
        byte_len: 640 * 480 * 3,
        width: 640,
        height: 480,
        stride: 640,
        bytes_per_pixel: 3,
        pixel_format: PixelFormat::Bgr,
    }
}

fn good_params() -> BootParams {
    BootParams {
        memory_regions: vec![
            MemoryRegion {
                start: 0,
                end: 0x1000,
                kind: RegionKind::Bootloader,
            },
            MemoryRegion {
                start: 0x100_0000,
                end: 0x100_0000 + 2 * HEAP_SIZE,
                kind: RegionKind::Usable,
            },
        ],
        physical_memory_offset: Some(0x1000_0000_0000),
        framebuffer: Some(good_framebuffer()),
        kernel_stack: StackRegion {
            start: 0x200_0000,
            size: 5000 * 1024,
        },
        fault_stack: StackRegion {
            start: 0x800_0000,
            size: 5 * 4096,
        },
    }
}

#[test]
fn boot_brings_every_subsystem_up_in_order() {
    let (kernel, result) = boot_sequence(good_params());
    assert_eq!(result, Ok(()));
    assert!(kernel.heap_ready);
    assert!(kernel.core.interrupts_on());
    assert!(!kernel.core.holding_lock());

    let idt = kernel.idt.expect("vector table built");
    assert!(idt.loaded());
    assert!(idt.entry_at(PIC_OFFSET).is_some());
    assert!(idt.entry_at(PIC_OFFSET + 1).is_some());

    let pics = kernel.pics.expect("controllers initialized");
    assert!(pics.initialized());
    assert_eq!(pics.offset_value(), PIC_OFFSET);

    let mapper = kernel.mapper.expect("mapper constructed");
    assert_eq!(
        mapper.entry_count() as u64,
        tokyo::heap::HEAP_PAGES
    );
    assert!(kernel.frame_allocator.is_some());
    assert!(kernel.view.is_some());
    assert!(kernel.gdt.is_some());
}

#[test]
fn boot_succeeds_on_a_misaligned_but_roomy_region() {
    let mut params = good_params();
    params.memory_regions = vec![MemoryRegion {
        start: 0x100_0800,
        end: 0x100_0800 + 2 * HEAP_SIZE,
        kind: RegionKind::Usable,
    }];
    let (kernel, result) = boot_sequence(params);
    assert_eq!(result, Ok(()));
    assert!(kernel.core.interrupts_on());
}

#[test]
fn boot_fails_without_a_physical_memory_offset() {
    let mut params = good_params();
    params.physical_memory_offset = None;
    let (kernel, result) = boot_sequence(params);
    assert_eq!(result, Err(BootError::MissingPhysicalMemoryOffset));
    assert!(!kernel.core.interrupts_on());
}

#[test]
fn boot_fails_on_a_noncanonical_offset() {
    let mut params = good_params();
    params.physical_memory_offset = Some(0x8000_0000_0000);
    let (kernel, result) = boot_sequence(params);
    assert_eq!(result, Err(BootError::NonCanonicalOffset));
    assert!(!kernel.core.interrupts_on());
}

#[test]
fn boot_without_a_large_usable_region_never_enables_interrupts() {
    let mut params = good_params();
    params.memory_regions = vec![
        MemoryRegion {
            start: 0,
            end: 0x1000,
            kind: RegionKind::Bootloader,
        },
        MemoryRegion {
            start: 0x100_0000,
            end: 0x100_0000 + HEAP_SIZE - 1,
            kind: RegionKind::Usable,
        },
    ];
    let (kernel, result) = boot_sequence(params);
    assert_eq!(result, Err(BootError::NoUsableRegion));
    assert!(!kernel.core.interrupts_on());
    assert!(!kernel.heap_ready);
    assert!(kernel.idt.is_none());
    assert!(kernel.pics.is_none());
}

#[test]
fn boot_reports_heap_exhaustion_and_stays_disabled() {
    let mut params = good_params();
    // a usable region one byte past the criterion, but misaligned, so it
    // holds one whole frame too few for the heap window
    params.memory_regions = vec![MemoryRegion {
        start: 0x100_0800,
        end: 0x100_0800 + HEAP_SIZE,
        kind: RegionKind::Usable,
    }];
    let (kernel, result) = boot_sequence(params);
    assert_eq!(
        result,
        Err(BootError::HeapMap(MapError::FrameAllocationFailed))
    );
    assert!(!kernel.core.interrupts_on());
}

#[test]
fn boot_fails_without_a_framebuffer() {
    let mut params = good_params();
    params.framebuffer = None;
    let (kernel, result) = boot_sequence(params);
    assert_eq!(result, Err(BootError::MissingFramebuffer));
    assert!(!kernel.core.interrupts_on());
    // memory came up before the failure
    assert!(kernel.heap_ready);
}

#[test]
fn boot_fails_on_an_unsupported_pixel_format() {
    let mut params = good_params();
    let mut fb = good_framebuffer();
    fb.pixel_format = PixelFormat::Rgb;
    params.framebuffer = Some(fb);
    let (kernel, result) = boot_sequence(params);
    assert_eq!(result, Err(BootError::UnsupportedPixelFormat));
    assert!(!kernel.core.interrupts_on());
}

#[test]
fn critical_section_restores_the_interrupt_flag() {
    let mut core = CoreState::new();
    assert!(!core.interrupts_on());
    core.enable_interrupts();
    assert!(core.interrupts_on());

    let token = core.enter_critical();
    assert!(!core.interrupts_on());
    assert!(core.holding_lock());

    core.exit_critical(token);
    assert!(!core.holding_lock());
    assert!(core.interrupts_on());
}

#[test]
fn critical_section_nested_from_disabled_state_stays_disabled() {
    let mut core = CoreState::new();
    let token = core.enter_critical();
    assert!(!core.interrupts_on());
    core.exit_critical(token);
    assert!(!core.interrupts_on());
}
