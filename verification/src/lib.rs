//! Boot-time core of a single-core x86-64 kernel, modelled over plain values.
//!
//! The crate verifies the subsystems that establish the memory addressing
//! model and the hardware-interrupt dispatch model: the physical frame
//! allocator, the page mapper, the heap bootstrap, segment/stack isolation,
//! the interrupt descriptor table, the legacy interrupt controller pair, and
//! the critical-section discipline. Hardware side effects (port writes,
//! privileged registers, the live page tables) are performed by a thin
//! unverified shell that replays the decisions made here.

pub mod addr;
pub mod bitmap;
pub mod boot;
pub mod critical;
pub mod dispatch;
pub mod frame_alloc;
pub mod gdt;
pub mod heap;
pub mod idt;
pub mod mapper;
pub mod pic;
pub mod pixel;
pub mod region;
pub mod render;

use vstd::prelude::*;

verus! {

/// Size in bytes of one physical frame and of one virtual page.
pub const PAGE_SIZE: u64 = 4096;

} // verus!
