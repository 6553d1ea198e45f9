//! The interrupt descriptor table: 256 vectors, each optionally bound to a
//! handler. Built once, loaded once, never mutated after load. The shell
//! mirrors each binding into the hardware table and performs the privileged
//! load instruction.

use vstd::prelude::*;

verus! {

use crate::gdt::DOUBLE_FAULT_IST_INDEX;

/// Vector base the interrupt controllers are remapped to: the first vector
/// past the 32 CPU-exception vectors.
pub const PIC_OFFSET: u8 = 32;

/// CPU-exception vector of a double fault.
pub const DOUBLE_FAULT_VECTOR: u8 = 8;

/// CPU-exception vector of a page fault.
pub const PAGE_FAULT_VECTOR: u8 = 14;

/// Number of interrupt vectors.
pub const VECTOR_COUNT: u16 = 256;

/// The handlers this kernel binds.
#[derive(Clone, Copy, Debug, PartialEq, Eq, Structural)]
pub enum HandlerKind {
    Timer,
    Keyboard,
    DoubleFault,
    PageFault,
}

/// One bound vector: its handler, and the interrupt-stack-table slot the
/// CPU must switch to before pushing the exception frame, if any.
#[derive(Clone, Copy, Debug, PartialEq, Eq, Structural)]
pub struct IdtEntry {
    pub handler: HandlerKind,
    pub stack_index: Option<u16>,
}

/// The binding `new` installs at vector `v` for a controller base of
/// `pic_offset`: page fault and double fault at their architectural
/// vectors, the double fault on the dedicated stack, and the two hardware
/// handlers at the controller's first two vectors.
pub open spec fn built_entry(pic_offset: u8, v: int) -> Option<IdtEntry> {
    if v == DOUBLE_FAULT_VECTOR {
        Some(IdtEntry { handler: HandlerKind::DoubleFault, stack_index: Some(DOUBLE_FAULT_IST_INDEX) })
    } else if v == PAGE_FAULT_VECTOR {
        Some(IdtEntry { handler: HandlerKind::PageFault, stack_index: None })
    } else if v == pic_offset {
        Some(IdtEntry { handler: HandlerKind::Timer, stack_index: None })
    } else if v == pic_offset + 1 {
        Some(IdtEntry { handler: HandlerKind::Keyboard, stack_index: None })
    } else {
        None
    }
}

/// The vector table. Its life cycle is build, then one irreversible load;
/// nothing mutates a loaded table.
pub struct InterruptTable {
    entries: Vec<Option<IdtEntry>>,
    loaded: bool,
}

impl InterruptTable {
    /// The binding at vector `v`.
    pub closed spec fn entry(self, v: int) -> Option<IdtEntry> {
        self.entries@[v]
    }

    /// Whether the table has been handed to the CPU.
    pub closed spec fn is_loaded(self) -> bool {
        self.loaded
    }

    pub closed spec fn wf(self) -> bool {
        self.entries@.len() == VECTOR_COUNT
    }

    /// The table holds exactly the bindings built for controller base
    /// `pic_offset`.
    pub open spec fn built_with(self, pic_offset: u8) -> bool {
        &&& self.wf()
        &&& forall|v: int| 0 <= v < VECTOR_COUNT ==> #[trigger] self.entry(v) == built_entry(pic_offset, v)
    }

    /// Builds the table for a controller base of `pic_offset`. The base must
    /// lie past the CPU-exception vectors, and leave room for the keyboard
    /// vector.
    pub fn new(pic_offset: u8) -> (r: InterruptTable)
        requires
            32 <= pic_offset <= 254,
        ensures
            r.built_with(pic_offset),
            !r.is_loaded(),
            r.entry(DOUBLE_FAULT_VECTOR as int) == Some(
                IdtEntry { handler: HandlerKind::DoubleFault, stack_index: Some(DOUBLE_FAULT_IST_INDEX) },
            ),
            r.entry(PAGE_FAULT_VECTOR as int) == Some(
                IdtEntry { handler: HandlerKind::PageFault, stack_index: None },
            ),
            r.entry(pic_offset as int) == Some(
                IdtEntry { handler: HandlerKind::Timer, stack_index: None },
            ),
            r.entry(pic_offset as int + 1) == Some(
                IdtEntry { handler: HandlerKind::Keyboard, stack_index: None },
            ),
    {
        let mut entries: Vec<Option<IdtEntry>> = Vec::new();
        let mut v: u16 = 0;
        while v < VECTOR_COUNT
            invariant
                32 <= pic_offset <= 254,
                v <= VECTOR_COUNT,
                entries@.len() == v,
                forall|j: int| 0 <= j < v ==> #[trigger] entries@[j] == built_entry(pic_offset, j),
            decreases VECTOR_COUNT - v,
        {
            let e: Option<IdtEntry> = if v == DOUBLE_FAULT_VECTOR as u16 {
                Some(IdtEntry { handler: HandlerKind::DoubleFault, stack_index: Some(DOUBLE_FAULT_IST_INDEX) })
            } else if v == PAGE_FAULT_VECTOR as u16 {
                Some(IdtEntry { handler: HandlerKind::PageFault, stack_index: None })
            } else if v == pic_offset as u16 {
                Some(IdtEntry { handler: HandlerKind::Timer, stack_index: None })
            } else if v == pic_offset as u16 + 1 {
                Some(IdtEntry { handler: HandlerKind::Keyboard, stack_index: None })
            } else {
                None
            };
            entries.push(e);
            v += 1;
        }
        InterruptTable { entries, loaded: false }
    }

    /// The one-shot, irreversible transition from built to loaded. The shell
    /// performs the privileged load of the hardware table at this point.
    pub fn load(&mut self)
        requires
            !old(self).is_loaded(),
        ensures
            final(self).is_loaded(),
            forall|v: int| #[trigger] final(self).entry(v) == old(self).entry(v),
            final(self).wf() == old(self).wf(),
    {
        self.loaded = true;
    }

    /// Whether the table has been loaded.
    pub fn loaded(&self) -> (r: bool)
        ensures
            r == self.is_loaded(),
    {
        self.loaded
    }

    /// The binding at vector `v`.
    pub fn entry_at(&self, v: u8) -> (r: Option<IdtEntry>)
        requires
            self.wf(),
        ensures
            r == self.entry(v as int),
    {
        self.entries[v as usize]
    }
}

/// Law: a table built for the controllers' configured base binds the timer
/// handler at that base and the keyboard handler one vector above it.
pub proof fn lemma_timer_keyboard_vectors(idt: InterruptTable, pic_offset: u8)
    requires
        32 <= pic_offset <= 254,
        idt.built_with(pic_offset),
    ensures
        idt.entry(pic_offset as int) matches Some(e) && e.handler == HandlerKind::Timer,
        idt.entry(pic_offset as int + 1) matches Some(e) && e.handler == HandlerKind::Keyboard,
{
    assert(idt.entry(pic_offset as int) == built_entry(pic_offset, pic_offset as int));
    assert(idt.entry(pic_offset as int + 1) == built_entry(pic_offset, pic_offset as int + 1));
}

} // verus!
