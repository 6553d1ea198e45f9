//! Segment and stack isolation: the task-state segment's interrupt stack
//! table reserves one alternate stack, disjoint from the normal kernel
//! stack, for the double-fault handler. A fault raised by kernel-stack
//! exhaustion then pushes its exception frame onto memory that cannot be
//! exhausted with it.

use vstd::prelude::*;

verus! {

/// Index into the interrupt stack table reserved for the double-fault
/// handler.
pub const DOUBLE_FAULT_IST_INDEX: u16 = 0;

/// Number of slots in the architecture's interrupt stack table.
pub const IST_SLOTS: u16 = 7;

/// A stack: the memory range `[start, start + size)`.
#[derive(Clone, Copy, Debug, PartialEq, Eq, Structural)]
pub struct StackRegion {
    pub start: u64,
    pub size: u64,
}

impl StackRegion {
    pub open spec fn wf(self) -> bool {
        &&& self.size > 0
        &&& self.start + self.size <= u64::MAX
    }

    /// One past the last byte of the stack.
    pub open spec fn end(self) -> int {
        self.start + self.size
    }

    /// Whether two stacks share no byte.
    pub open spec fn disjoint(a: StackRegion, b: StackRegion) -> bool {
        a.end() <= b.start || b.end() <= a.start
    }
}

/// The segment configuration the kernel installs: the normal kernel stack
/// and the task-state segment's interrupt stack table.
pub struct GdtTss {
    kernel_stack: StackRegion,
    ist: Vec<Option<StackRegion>>,
}

impl GdtTss {
    /// The normal kernel stack.
    pub closed spec fn kernel_stack(self) -> StackRegion {
        self.kernel_stack
    }

    /// The interrupt stack table slot `i`.
    pub closed spec fn ist_slot(self, i: int) -> Option<StackRegion> {
        self.ist@[i]
    }

    pub closed spec fn wf(self) -> bool {
        self.ist@.len() == IST_SLOTS
    }

    /// The configuration `init` establishes: the double-fault slot holds the
    /// alternate stack, every other slot is empty, and the alternate stack
    /// is disjoint from the kernel stack.
    pub open spec fn configured(self, kernel_stack: StackRegion, fault_stack: StackRegion) -> bool {
        &&& self.wf()
        &&& self.kernel_stack() == kernel_stack
        &&& self.ist_slot(DOUBLE_FAULT_IST_INDEX as int) == Some(fault_stack)
        &&& forall|i: int|
            0 <= i < IST_SLOTS && i != DOUBLE_FAULT_IST_INDEX ==> #[trigger] self.ist_slot(i)
                is None
        &&& StackRegion::disjoint(fault_stack, kernel_stack)
        &&& fault_stack.wf()
        &&& kernel_stack.wf()
    }

    /// The normal kernel stack the configuration records.
    pub fn kernel_stack_region(&self) -> (r: StackRegion)
        ensures
            r == self.kernel_stack(),
    {
        self.kernel_stack
    }

    /// The interrupt stack table slot `i`.
    pub fn ist_slot_at(&self, i: u16) -> (r: Option<StackRegion>)
        requires
            self.wf(),
            i < IST_SLOTS,
        ensures
            r == self.ist_slot(i as int),
    {
        self.ist[i as usize]
    }

    /// The stack table slot bound to the double-fault handler, if any.
    pub fn fault_stack(&self) -> (r: Option<StackRegion>)
        requires
            self.wf(),
        ensures
            r == self.ist_slot(DOUBLE_FAULT_IST_INDEX as int),
    {
        self.ist[DOUBLE_FAULT_IST_INDEX as usize]
    }
}

/// Builds the segment configuration: reserves the alternate fault stack at
/// the double-fault index of the interrupt stack table. The caller supplies
/// stacks that do not overlap; the shell loads the resulting descriptors
/// into the hardware tables.
pub fn init(kernel_stack: StackRegion, fault_stack: StackRegion) -> (r: GdtTss)
    requires
        kernel_stack.wf(),
        fault_stack.wf(),
        StackRegion::disjoint(fault_stack, kernel_stack),
    ensures
        r.configured(kernel_stack, fault_stack),
{
    let mut ist: Vec<Option<StackRegion>> = Vec::new();
    ist.push(Some(fault_stack));
    let mut i: u16 = 1;
    while i < IST_SLOTS
        invariant
            1 <= i <= IST_SLOTS,
            ist@.len() == i,
            ist@[0] == Some(fault_stack),
            forall|j: int| 1 <= j < i ==> #[trigger] ist@[j] is None,
        decreases IST_SLOTS - i,
    {
        ist.push(None);
        i += 1;
    }
    GdtTss { kernel_stack, ist }
}

} // verus!
