//! Interrupt dispatch: what each bound handler decides. Fatal CPU
//! exceptions produce a deterministic diagnostic record and halt - there is
//! no process to sacrifice instead of the machine. Hardware vectors
//! acknowledge their own vector to the controller pair, exactly once,
//! before returning.

use vstd::prelude::*;

verus! {

use crate::gdt::{GdtTss, StackRegion};
use crate::idt::{
    DOUBLE_FAULT_VECTOR, HandlerKind, IdtEntry, InterruptTable, PAGE_FAULT_VECTOR, built_entry,
};
use crate::pic::PicPair;

/// The access-type flags a page-fault error code carries.
#[derive(Clone, Copy, Debug, PartialEq, Eq, Structural)]
pub struct PageFaultFlags {
    pub protection_violation: bool,
    pub caused_by_write: bool,
    pub user_mode: bool,
    pub malformed_table: bool,
    pub instruction_fetch: bool,
}

/// The flags encoded in a page-fault error code, one bit each.
pub open spec fn page_fault_flags_spec(code: u64) -> PageFaultFlags {
    PageFaultFlags {
        protection_violation: code & 1 != 0,
        caused_by_write: code & 2 != 0,
        user_mode: code & 4 != 0,
        malformed_table: code & 8 != 0,
        instruction_fetch: code & 16 != 0,
    }
}

/// Decodes a page-fault error code into its access-type flags.
pub fn decode_page_fault_code(code: u64) -> (r: PageFaultFlags)
    ensures
        r == page_fault_flags_spec(code),
{
    PageFaultFlags {
        protection_violation: code & 1 != 0,
        caused_by_write: code & 2 != 0,
        user_mode: code & 4 != 0,
        malformed_table: code & 8 != 0,
        instruction_fetch: code & 16 != 0,
    }
}

/// The diagnostic a fatal fault logs before the machine halts.
#[derive(Clone, Copy, Debug, PartialEq, Eq)]
pub struct FaultRecord {
    pub vector: u8,
    pub instruction_pointer: u64,
    pub error_code: u64,
    pub faulting_address: Option<u64>,
    pub flags: Option<PageFaultFlags>,
}

/// The record a double fault logs: the faulting instruction pointer and
/// the (always-zero, architecturally) error code.
pub open spec fn double_fault_record(instruction_pointer: u64, error_code: u64) -> FaultRecord {
    FaultRecord {
        vector: DOUBLE_FAULT_VECTOR,
        instruction_pointer,
        error_code,
        faulting_address: None,
        flags: None,
    }
}

/// The record a page fault logs: instruction pointer, faulting address and
/// decoded access-type flags. A pure function of the fault's parameters, so
/// the same fault logs the same record on every run.
pub open spec fn page_fault_record(
    instruction_pointer: u64,
    faulting_address: u64,
    error_code: u64,
) -> FaultRecord {
    FaultRecord {
        vector: PAGE_FAULT_VECTOR,
        instruction_pointer,
        error_code,
        faulting_address: Some(faulting_address),
        flags: Some(page_fault_flags_spec(error_code)),
    }
}

/// The double-fault handler's decision: log the faulting context, then
/// halt. It never returns to the interrupted code.
pub fn double_fault(instruction_pointer: u64, error_code: u64) -> (r: FaultRecord)
    ensures
        r == double_fault_record(instruction_pointer, error_code),
{
    FaultRecord {
        vector: DOUBLE_FAULT_VECTOR,
        instruction_pointer,
        error_code,
        faulting_address: None,
        flags: None,
    }
}

/// The page-fault handler's decision: log the faulting address and decoded
/// flags, then halt.
pub fn page_fault(instruction_pointer: u64, faulting_address: u64, error_code: u64) -> (r:
    FaultRecord)
    ensures
        r == page_fault_record(instruction_pointer, faulting_address, error_code),
{
    let flags = decode_page_fault_code(error_code);
    FaultRecord {
        vector: PAGE_FAULT_VECTOR,
        instruction_pointer,
        error_code,
        faulting_address: Some(faulting_address),
        flags: Some(flags),
    }
}

/// What an interrupt delivery decides.
#[derive(Clone, Copy, Debug, PartialEq, Eq)]
pub enum HandlerResponse {
    /// A hardware interrupt was serviced and its vector acknowledged;
    /// control returns to the interrupted code.
    Acknowledge(u8),
    /// A fatal CPU exception: log the record, then halt.
    Fatal(FaultRecord),
    /// The vector carries no binding; nothing was done.
    Unhandled,
}

/// A delivered interrupt, as the CPU hands it over: the vector, the
/// interrupted instruction pointer, the error code for vectors that push
/// one, and the faulting address for page faults.
#[derive(Clone, Copy, Debug, PartialEq, Eq)]
pub struct InterruptEvent {
    pub vector: u8,
    pub instruction_pointer: u64,
    pub error_code: u64,
    pub faulting_address: u64,
}

/// Dispatches one delivered interrupt through the loaded table: a hardware
/// vector acknowledges exactly its own vector to the controller pair
/// before returning; a fatal exception produces its deterministic record
/// and halts; an unbound vector does nothing.
pub fn handle_interrupt(idt: &InterruptTable, pics: &mut PicPair, ev: InterruptEvent) -> (r:
    HandlerResponse)
    requires
        old(pics).wf(),
        old(pics).is_initialized(),
        idt.built_with(old(pics).offset() as u8),
        idt.is_loaded(),
    ensures
        final(pics).wf(),
        final(pics).is_initialized(),
        final(pics).offset() == old(pics).offset(),
        r matches HandlerResponse::Acknowledge(v) ==> {
            &&& v == ev.vector
            &&& (ev.vector == old(pics).offset() || ev.vector == old(pics).offset() + 1)
            &&& PicPair::eoi_post(
                *old(pics),
                *final(pics),
                ev.vector,
                Some(crate::pic::EoiScope::MasterOnly),
            )
        },
        (ev.vector == old(pics).offset() || ev.vector == old(pics).offset() + 1) <==> (r matches
        HandlerResponse::Acknowledge(v) && v == ev.vector),
        ev.vector == DOUBLE_FAULT_VECTOR <==> (r matches HandlerResponse::Fatal(rec) && rec
            == double_fault_record(ev.instruction_pointer, ev.error_code)),
        ev.vector == PAGE_FAULT_VECTOR <==> (r matches HandlerResponse::Fatal(rec) && rec
            == page_fault_record(ev.instruction_pointer, ev.faulting_address, ev.error_code)),
        r is Unhandled || r is Fatal ==> {
            &&& final(pics).master_in_service() == old(pics).master_in_service()
            &&& final(pics).slave_in_service() == old(pics).slave_in_service()
        },
{
    proof {
        assert(idt.entry(ev.vector as int) == built_entry(pics.offset() as u8, ev.vector as int));
    }
    match idt.entry_at(ev.vector) {
        None => HandlerResponse::Unhandled,
        Some(e) => match e.handler {
            HandlerKind::Timer => {
                let _scope = pics.notify_end_of_interrupt(ev.vector);
                HandlerResponse::Acknowledge(ev.vector)
            },
            HandlerKind::Keyboard => {
                let _scope = pics.notify_end_of_interrupt(ev.vector);
                HandlerResponse::Acknowledge(ev.vector)
            },
            HandlerKind::DoubleFault => HandlerResponse::Fatal(
                double_fault(ev.instruction_pointer, ev.error_code),
            ),
            HandlerKind::PageFault => HandlerResponse::Fatal(
                page_fault(ev.instruction_pointer, ev.faulting_address, ev.error_code),
            ),
        },
    }
}

/// The stack the CPU switches to before pushing the exception frame for
/// `vector`: the interrupt-stack-table slot the vector's binding names, or
/// none, which leaves the CPU on the current (possibly exhausted) stack.
pub open spec fn stack_for_vector_spec(idt: InterruptTable, gdt: GdtTss, vector: u8) -> Option<
    StackRegion,
> {
    match idt.entry(vector as int) {
        Some(e) => match e.stack_index {
            Some(i) => if 0 <= i < crate::gdt::IST_SLOTS {
                gdt.ist_slot(i as int)
            } else {
                None
            },
            None => None,
        },
        None => None,
    }
}

/// The architecture's stack-selection rule for one delivered vector.
pub fn stack_for_vector(idt: &InterruptTable, gdt: &GdtTss, vector: u8) -> (r: Option<StackRegion>)
    requires
        idt.wf(),
        gdt.wf(),
    ensures
        r == stack_for_vector_spec(*idt, *gdt, vector),
{
    match idt.entry_at(vector) {
        Some(e) => match e.stack_index {
            Some(i) => if i < crate::gdt::IST_SLOTS {
                match gdt.ist_slot_at(i) {
                    Some(s) => Some(s),
                    None => None,
                }
            } else {
                None
            },
            None => None,
        },
        None => None,
    }
}

/// Law: with the table and segments the boot sequence builds, a double
/// fault runs on the dedicated alternate stack, which shares no byte with
/// the normal kernel stack - so a fault raised by kernel-stack exhaustion
/// still has room for its exception frame and halts cleanly instead of
/// compounding.
pub proof fn lemma_double_fault_on_alternate_stack(
    idt: InterruptTable,
    gdt: GdtTss,
    pic_offset: u8,
    kernel_stack: StackRegion,
    fault_stack: StackRegion,
)
    requires
        32 <= pic_offset <= 254,
        idt.built_with(pic_offset),
        gdt.configured(kernel_stack, fault_stack),
    ensures
        stack_for_vector_spec(idt, gdt, DOUBLE_FAULT_VECTOR) == Some(fault_stack),
        StackRegion::disjoint(fault_stack, kernel_stack),
{
    assert(idt.entry(DOUBLE_FAULT_VECTOR as int) == built_entry(
        pic_offset,
        DOUBLE_FAULT_VECTOR as int,
    ));
}

/// Law: a serviced hardware interrupt acknowledges its vector exactly once:
/// the dispatch of a timer or keyboard delivery performs one
/// end-of-interrupt transition for that vector, after which an otherwise
/// idle controller pair delivers every vector it owns again.
pub proof fn lemma_serviced_interrupt_acknowledged_once(
    pre: PicPair,
    mid: PicPair,
    post: PicPair,
    v: u8,
    r: HandlerResponse,
    w: u8,
)
    requires
        pre.wf(),
        pre.is_initialized(),
        !pre.master_in_service(),
        !pre.slave_in_service(),
        v == pre.offset() || v == pre.offset() + 1,
        PicPair::begin_service_post(pre, mid, v),
        r matches HandlerResponse::Acknowledge(x) && x == v,
        PicPair::eoi_post(mid, post, v, Some(crate::pic::EoiScope::MasterOnly)),
        post.is_initialized(),
        post.handles(w),
    ensures
        !post.master_in_service(),
        !post.slave_in_service(),
        post.can_deliver(w),
{
}

} // verus!
