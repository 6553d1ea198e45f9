//! The chained legacy interrupt controller pair: a master and a slave
//! remapped onto a vector base clear of the CPU-exception range. The model
//! tracks the configured base, whether the pair has been initialized, and -
//! coarsely, one flag per controller - whether a serviced interrupt still
//! awaits its end-of-interrupt acknowledgment. A controller with such an
//! outstanding service delivers no further interrupt until acknowledged:
//! that is the starvation an omitted acknowledgment causes.

use vstd::prelude::*;

verus! {

/// Which controllers an end-of-interrupt acknowledgment reaches: an
/// interrupt of the slave is chained through the master, so acknowledging
/// it acknowledges both.
#[derive(Clone, Copy, Debug, PartialEq, Eq, Structural)]
pub enum EoiScope {
    MasterOnly,
    SlaveAndMaster,
}

/// The master/slave controller pair.
pub struct PicPair {
    offset: u8,
    initialized: bool,
    master_in_service: bool,
    slave_in_service: bool,
}

impl PicPair {
    /// The vector base the pair is remapped to.
    pub closed spec fn offset(self) -> u64 {
        self.offset as u64
    }

    /// Whether `initialize` has remapped the pair.
    pub closed spec fn is_initialized(self) -> bool {
        self.initialized
    }

    /// Whether the master controller has a service awaiting acknowledgment.
    pub closed spec fn master_in_service(self) -> bool {
        self.master_in_service
    }

    /// Whether the slave controller has a service awaiting acknowledgment.
    pub closed spec fn slave_in_service(self) -> bool {
        self.slave_in_service
    }

    /// The vector base stays clear of the 32 CPU-exception vectors, and the
    /// pair's sixteen vectors stay inside the table.
    pub open spec fn wf(self) -> bool {
        32 <= self.offset() && self.offset() + 16 <= 256
    }

    /// Whether the master controller owns vector `v`.
    pub open spec fn master_handles(self, v: u8) -> bool {
        self.offset() <= v < self.offset() + 8
    }

    /// Whether the slave controller owns vector `v`.
    pub open spec fn slave_handles(self, v: u8) -> bool {
        self.offset() + 8 <= v < self.offset() + 16
    }

    /// Whether either controller owns vector `v`.
    pub open spec fn handles(self, v: u8) -> bool {
        self.master_handles(v) || self.slave_handles(v)
    }

    /// Whether an interrupt on vector `v` can currently be delivered: the
    /// pair is initialized and the owning controller has no service still
    /// awaiting acknowledgment.
    pub open spec fn can_deliver(self, v: u8) -> bool {
        &&& self.is_initialized()
        &&& self.handles(v)
        &&& self.master_handles(v) ==> !self.master_in_service()
        &&& self.slave_handles(v) ==> !self.slave_in_service()
    }

    /// A fresh, not yet remapped pair with the given vector base.
    pub fn new(offset: u8) -> (r: PicPair)
        requires
            32 <= offset <= 240,
        ensures
            r.wf(),
            r.offset() == offset,
            !r.is_initialized(),
            !r.master_in_service(),
            !r.slave_in_service(),
    {
        PicPair { offset, initialized: false, master_in_service: false, slave_in_service: false }
    }

    /// Remaps both controllers onto the configured base. Safe to run once
    /// the vector table is built, and it must complete before interrupts
    /// are globally enabled; the boot sequence enforces that order. The
    /// shell performs the port writes this decision stands for.
    pub fn initialize(&mut self)
        requires
            old(self).wf(),
        ensures
            final(self).wf(),
            final(self).is_initialized(),
            final(self).offset() == old(self).offset(),
            final(self).master_in_service() == old(self).master_in_service(),
            final(self).slave_in_service() == old(self).slave_in_service(),
    {
        self.initialized = true;
    }

    /// Whether either controller owns vector `v`.
    pub fn handles_interrupt(&self, v: u8) -> (r: bool)
        requires
            self.wf(),
        ensures
            r == self.handles(v),
    {
        let v64 = v as u64;
        let off = self.offset as u64;
        off <= v64 && v64 < off + 16
    }

    /// What `begin_service` does: the owning controller records an
    /// outstanding service.
    pub open spec fn begin_service_post(pre: Self, post: Self, v: u8) -> bool {
        &&& post.offset() == pre.offset()
        &&& post.is_initialized() == pre.is_initialized()
        &&& post.master_in_service() == (pre.master_in_service() || pre.master_handles(v))
        &&& post.slave_in_service() == (pre.slave_in_service() || pre.slave_handles(v))
    }

    /// Records the delivery of vector `v`: the owning controller now awaits
    /// an end-of-interrupt acknowledgment before delivering again.
    pub fn begin_service(&mut self, v: u8)
        requires
            old(self).wf(),
            old(self).is_initialized(),
            old(self).handles(v),
        ensures
            final(self).wf(),
            Self::begin_service_post(*old(self), *final(self), v),
    {
        if self.slave_handles_vector(v) {
            self.slave_in_service = true;
        } else {
            self.master_in_service = true;
        }
    }

    /// What `notify_end_of_interrupt` does: the acknowledgment clears the
    /// owning controller - both controllers for a slave vector, the chain
    /// running through the master - and leaves an unowned vector alone.
    pub open spec fn eoi_post(pre: Self, post: Self, v: u8, r: Option<EoiScope>) -> bool {
        &&& post.offset() == pre.offset()
        &&& post.is_initialized() == pre.is_initialized()
        &&& pre.slave_handles(v) ==> {
            &&& r == Some(EoiScope::SlaveAndMaster)
            &&& !post.slave_in_service()
            &&& !post.master_in_service()
        }
        &&& pre.master_handles(v) ==> {
            &&& r == Some(EoiScope::MasterOnly)
            &&& !post.master_in_service()
            &&& post.slave_in_service() == pre.slave_in_service()
        }
        &&& !pre.handles(v) ==> {
            &&& r is None
            &&& post.master_in_service() == pre.master_in_service()
            &&& post.slave_in_service() == pre.slave_in_service()
        }
    }

    /// Acknowledges the service of vector `v` to the controllers that chain
    /// it, and reports which were reached; a vector neither controller owns
    /// is ignored.
    pub fn notify_end_of_interrupt(&mut self, v: u8) -> (r: Option<EoiScope>)
        requires
            old(self).wf(),
            old(self).is_initialized(),
        ensures
            final(self).wf(),
            final(self).is_initialized(),
            Self::eoi_post(*old(self), *final(self), v, r),
    {
        if self.slave_handles_vector(v) {
            self.slave_in_service = false;
            self.master_in_service = false;
            Some(EoiScope::SlaveAndMaster)
        } else if self.master_handles_vector(v) {
            self.master_in_service = false;
            Some(EoiScope::MasterOnly)
        } else {
            None
        }
    }

    /// The configured vector base.
    pub fn offset_value(&self) -> (r: u8)
        ensures
            r == self.offset(),
    {
        self.offset
    }

    /// Whether the pair has been remapped.
    pub fn initialized(&self) -> (r: bool)
        ensures
            r == self.is_initialized(),
    {
        self.initialized
    }

    /// Whether an interrupt on vector `v` can currently be delivered.
    pub fn can_deliver_vector(&self, v: u8) -> (r: bool)
        requires
            self.wf(),
        ensures
            r == self.can_deliver(v),
    {
        if !self.initialized {
            return false;
        }
        if self.master_handles_vector(v) {
            !self.master_in_service
        } else if self.slave_handles_vector(v) {
            !self.slave_in_service
        } else {
            false
        }
    }

    fn master_handles_vector(&self, v: u8) -> (r: bool)
        requires
            self.wf(),
        ensures
            r == self.master_handles(v),
    {
        let v64 = v as u64;
        let off = self.offset as u64;
        off <= v64 && v64 < off + 8
    }

    fn slave_handles_vector(&self, v: u8) -> (r: bool)
        requires
            self.wf(),
        ensures
            r == self.slave_handles(v),
    {
        let v64 = v as u64;
        let off = self.offset as u64;
        off + 8 <= v64 && v64 < off + 16
    }
}

/// Law: while a serviced interrupt awaits its acknowledgment, the owning
/// controller delivers nothing - an omitted end-of-interrupt shows up as
/// every further vector of that controller ceasing to fire.
pub proof fn lemma_omitted_eoi_starves(pre: PicPair, post: PicPair, v: u8, w: u8)
    requires
        pre.wf(),
        pre.is_initialized(),
        pre.handles(v),
        PicPair::begin_service_post(pre, post, v),
        pre.master_handles(v) ==> post.master_handles(w),
        pre.slave_handles(v) ==> post.slave_handles(w),
    ensures
        !post.can_deliver(w),
{
}

/// Law: a service followed by exactly one acknowledgment of its vector
/// returns an otherwise idle controller pair to a state that delivers every
/// vector it owns again.
pub proof fn lemma_eoi_restores_delivery(
    pre: PicPair,
    mid: PicPair,
    post: PicPair,
    v: u8,
    r: Option<EoiScope>,
    w: u8,
)
    requires
        pre.wf(),
        pre.is_initialized(),
        pre.handles(v),
        !pre.master_in_service(),
        !pre.slave_in_service(),
        PicPair::begin_service_post(pre, mid, v),
        mid.wf(),
        mid.is_initialized(),
        PicPair::eoi_post(mid, post, v, r),
        post.is_initialized(),
        post.handles(w),
    ensures
        post.can_deliver(w),
{
}

} // verus!
