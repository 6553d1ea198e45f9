use tokyo::dispatch::{
    FaultRecord, HandlerResponse, InterruptEvent, PageFaultFlags, decode_page_fault_code,
    double_fault, handle_interrupt, page_fault, stack_for_vector,
};
use tokyo::gdt::{DOUBLE_FAULT_IST_INDEX, StackRegion};
use tokyo::idt::{
    DOUBLE_FAULT_VECTOR, HandlerKind, InterruptTable, PAGE_FAULT_VECTOR, PIC_OFFSET,
};
use tokyo::pic::{EoiScope, PicPair};

#[test]
fn idt_binds_timer_and_keyboard_at_the_pic_offset() {
    let idt = InterruptTable::new(PIC_OFFSET);
    let timer = idt.entry_at(PIC_OFFSET).expect("timer vector bound");
    assert_eq!(timer.handler, HandlerKind::Timer);
    assert_eq!(timer.stack_index, None);
    let keyboard = idt.entry_at(PIC_OFFSET + 1).expect("keyboard vector bound");
    assert_eq!(keyboard.handler, HandlerKind::Keyboard);
    assert_eq!(keyboard.stack_index, None);
}

#[test]
fn idt_binds_fault_handlers_and_loads_once() {
    let mut idt = InterruptTable::new(PIC_OFFSET);
    let df = idt.entry_at(DOUBLE_FAULT_VECTOR).expect("double fault bound");
    assert_eq!(df.handler, HandlerKind::DoubleFault);
    assert_eq!(df.stack_index, Some(DOUBLE_FAULT_IST_INDEX));
    let pf = idt.entry_at(PAGE_FAULT_VECTOR).expect("page fault bound");
    assert_eq!(pf.handler, HandlerKind::PageFault);
    assert_eq!(pf.stack_index, None);
    assert!(idt.entry_at(100).is_none());
    assert!(idt.entry_at(0).is_none());
    assert!(!idt.loaded());
    idt.load();
    assert!(idt.loaded());
}

#[test]
fn page_fault_code_decodes_bit_by_bit() {
    let flags = decode_page_fault_code(0b00011);
    assert_eq!(
        flags,
        PageFaultFlags {
            protection_violation: true,
            caused_by_write: true,
            user_mode: false,
            malformed_table: false,
            instruction_fetch: false,
        }
    );
    let flags = decode_page_fault_code(0b10100);
    assert_eq!(
        flags,
        PageFaultFlags {
            protection_violation: false,
            caused_by_write: false,
            user_mode: true,
            malformed_table: false,
            instruction_fetch: true,
        }
    );
    assert_eq!(decode_page_fault_code(0), PageFaultFlags {
        protection_violation: false,
        caused_by_write: false,
        user_mode: false,
        malformed_table: false,
        instruction_fetch: false,
    });
}

#[test]
fn page_fault_log_is_identical_across_runs() {
    let first = page_fault(0x1234_5678, 0xdead_beef, 0b10);
    let second = page_fault(0x1234_5678, 0xdead_beef, 0b10);
    assert_eq!(first, second);
    assert_eq!(
        first,
        FaultRecord {
            vector: PAGE_FAULT_VECTOR,
            instruction_pointer: 0x1234_5678,
            error_code: 0b10,
            faulting_address: Some(0xdead_beef),
            flags: Some(PageFaultFlags {
                protection_violation: false,
                caused_by_write: true,
                user_mode: false,
                malformed_table: false,
                instruction_fetch: false,
            }),
        }
    );
}

#[test]
fn double_fault_logs_the_faulting_context() {
    let record = double_fault(0xffff_8000_0010_0000, 0);
    assert_eq!(record.vector, DOUBLE_FAULT_VECTOR);
    assert_eq!(record.instruction_pointer, 0xffff_8000_0010_0000);
    assert_eq!(record.error_code, 0);
    assert_eq!(record.faulting_address, None);
    assert_eq!(record.flags, None);
}

#[test]
fn double_fault_selects_the_disjoint_alternate_stack() {
    let kernel_stack = StackRegion {
        start: 0x200_0000,
        size: 5000 * 1024,
    };
    let fault_stack = StackRegion {
        start: 0x800_0000,
        size: 4096 * 5,
    };
    let gdt = tokyo::gdt::init(kernel_stack, fault_stack);
    assert_eq!(gdt.kernel_stack_region(), kernel_stack);
    assert_eq!(gdt.fault_stack(), Some(fault_stack));
    let idt = InterruptTable::new(PIC_OFFSET);
    let selected = stack_for_vector(&idt, &gdt, DOUBLE_FAULT_VECTOR);
    assert_eq!(selected, Some(fault_stack));
    // the selected stack shares no byte with the normal kernel stack
    let s = selected.unwrap();
    assert!(s.start + s.size <= kernel_stack.start || kernel_stack.start + kernel_stack.size <= s.start);
    // every other vector stays on the current stack
    assert_eq!(stack_for_vector(&idt, &gdt, PAGE_FAULT_VECTOR), None);
    assert_eq!(stack_for_vector(&idt, &gdt, PIC_OFFSET), None);
}

#[test]
fn double_fault_dispatch_is_terminal() {
    let mut idt = InterruptTable::new(PIC_OFFSET);
    idt.load();
    let mut pics = PicPair::new(PIC_OFFSET);
    pics.initialize();
    let ev = InterruptEvent {
        vector: DOUBLE_FAULT_VECTOR,
        instruction_pointer: 0x40_0000,
        error_code: 0,
        faulting_address: 0,
    };
    match handle_interrupt(&idt, &mut pics, ev) {
        HandlerResponse::Fatal(rec) => {
            assert_eq!(rec.vector, DOUBLE_FAULT_VECTOR);
            assert_eq!(rec.instruction_pointer, 0x40_0000);
        }
        other => panic!("double fault must be terminal, got {:?}", other),
    }
}

#[test]
fn hardware_interrupt_acknowledges_its_own_vector_once() {
    let mut idt = InterruptTable::new(PIC_OFFSET);
    idt.load();
    let mut pics = PicPair::new(PIC_OFFSET);
    pics.initialize();
    assert!(pics.can_deliver_vector(PIC_OFFSET));

    pics.begin_service(PIC_OFFSET);
    // while the service awaits its acknowledgment, the controller is starved
    assert!(!pics.can_deliver_vector(PIC_OFFSET));
    assert!(!pics.can_deliver_vector(PIC_OFFSET + 1));

    let ev = InterruptEvent {
        vector: PIC_OFFSET,
        instruction_pointer: 0,
        error_code: 0,
        faulting_address: 0,
    };
    match handle_interrupt(&idt, &mut pics, ev) {
        HandlerResponse::Acknowledge(v) => assert_eq!(v, PIC_OFFSET),
        other => panic!("timer must acknowledge, got {:?}", other),
    }
    // exactly one acknowledgment later, delivery is open again
    assert!(pics.can_deliver_vector(PIC_OFFSET));
    assert!(pics.can_deliver_vector(PIC_OFFSET + 1));
}

#[test]
fn keyboard_interrupt_acknowledges_its_own_vector() {
    let mut idt = InterruptTable::new(PIC_OFFSET);
    idt.load();
    let mut pics = PicPair::new(PIC_OFFSET);
    pics.initialize();
    pics.begin_service(PIC_OFFSET + 1);
    let ev = InterruptEvent {
        vector: PIC_OFFSET + 1,
        instruction_pointer: 0,
        error_code: 0,
        faulting_address: 0,
    };
    match handle_interrupt(&idt, &mut pics, ev) {
        HandlerResponse::Acknowledge(v) => assert_eq!(v, PIC_OFFSET + 1),
        other => panic!("keyboard must acknowledge, got {:?}", other),
    }
    assert!(pics.can_deliver_vector(PIC_OFFSET + 1));
}

#[test]
fn slave_service_does_not_starve_the_master() {
    let mut pics = PicPair::new(PIC_OFFSET);
    pics.initialize();
    pics.begin_service(PIC_OFFSET + 8);
    assert!(!pics.can_deliver_vector(PIC_OFFSET + 8));
    assert!(pics.can_deliver_vector(PIC_OFFSET));
    assert_eq!(
        pics.notify_end_of_interrupt(PIC_OFFSET + 8),
        Some(EoiScope::SlaveAndMaster)
    );
    assert!(pics.can_deliver_vector(PIC_OFFSET + 8));
}

#[test]
fn eoi_scope_depends_on_the_owning_controller() {
    let mut pics = PicPair::new(PIC_OFFSET);
    pics.initialize();
    assert_eq!(pics.offset_value(), PIC_OFFSET);
    assert!(pics.initialized());
    assert_eq!(
        pics.notify_end_of_interrupt(PIC_OFFSET + 3),
        Some(EoiScope::MasterOnly)
    );
    assert_eq!(
        pics.notify_end_of_interrupt(PIC_OFFSET + 12),
        Some(EoiScope::SlaveAndMaster)
    );
    assert_eq!(pics.notify_end_of_interrupt(10), None);
    assert_eq!(pics.notify_end_of_interrupt(200), None);
}

#[test]
fn unbound_vector_is_left_unhandled() {
    let mut idt = InterruptTable::new(PIC_OFFSET);
    idt.load();
    let mut pics = PicPair::new(PIC_OFFSET);
    pics.initialize();
    let ev = InterruptEvent {
        vector: 200,
        instruction_pointer: 0,
        error_code: 0,
        faulting_address: 0,
    };
    assert_eq!(handle_interrupt(&idt, &mut pics, ev), HandlerResponse::Unhandled);
}
