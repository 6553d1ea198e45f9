//! The physical frame allocator: a bitmap over one sufficiently large usable
//! region, one bit per 4 KiB frame. Allocation scans for the first clear bit,
//! sets it, and returns the corresponding frame. No free operation exists:
//! the allocator serves boot-time setup only.

use vstd::prelude::*;

verus! {

use crate::PAGE_SIZE;
use crate::bitmap::{FrameBitmap, bitmap_bits};
use crate::heap::HEAP_SIZE;
use crate::region::{MemoryRegion, RegionKind};

/// Picks frames from a single usable boot-reported region, tracking issued
/// frames in a bitmap.
pub struct KernelFrameAllocator {
    region: MemoryRegion,
    base: u64,
    bitmap: FrameBitmap,
}

impl KernelFrameAllocator {
    /// The backing region the allocator draws from.
    pub closed spec fn region(self) -> MemoryRegion {
        self.region
    }

    /// Base address of the first whole frame inside the backing region.
    pub closed spec fn base(self) -> u64 {
        self.base
    }

    /// The issue bitmap: `bits()[i]` is set once frame `i` has been handed
    /// out.
    pub closed spec fn bits(self) -> Seq<bool> {
        bitmap_bits(&self.bitmap)
    }

    /// Base address of the frame with index `i`.
    pub open spec fn frame_at(self, i: int) -> int {
        self.base() + i * PAGE_SIZE
    }

    /// Internal consistency: the region is usable, the first frame base is
    /// the region start rounded up to a frame boundary, and every tracked
    /// frame lies wholly inside the region.
    pub open spec fn wf(self) -> bool {
        &&& self.region().wf()
        &&& self.region().kind == RegionKind::Usable
        &&& self.base() as int % PAGE_SIZE as int == 0
        &&& self.region().start <= self.base()
        &&& self.base() - self.region().start < PAGE_SIZE
        &&& self.base() + self.bits().len() * PAGE_SIZE <= self.region().end
    }

    /// Number of frames not yet issued.
    pub open spec fn free_frames(self) -> int {
        count_clear(self.bits())
    }

    /// `rs[i]` is the first region of the map that is usable and large
    /// enough to back the heap, and it is the one the allocator picked.
    pub open spec fn picked_region(rs: Seq<MemoryRegion>, i: int, picked: MemoryRegion) -> bool {
        &&& 0 <= i < rs.len()
        &&& rs[i] == picked
        &&& rs[i].usable_with(HEAP_SIZE)
        &&& forall|j: int| 0 <= j < i ==> !(#[trigger] rs[j].usable_with(HEAP_SIZE))
    }

    /// The first region of the map that is usable and at least `HEAP_SIZE`
    /// bytes long: the one the allocator is built over, if any exists.
    pub open spec fn first_candidate(rs: Seq<MemoryRegion>) -> Option<MemoryRegion>
        decreases rs.len(),
    {
        if rs.len() == 0 {
            None
        } else if rs[0].usable_with(HEAP_SIZE) {
            Some(rs[0])
        } else {
            Self::first_candidate(rs.drop_first())
        }
    }

    /// One successful or failed allocation step, with `i` the index of the
    /// frame issued: the first clear bit of the bitmap is set and the frame
    /// at that index is returned.
    pub open spec fn allocate_at(pre: Self, post: Self, f: u64, i: int) -> bool {
        &&& 0 <= i < pre.bits().len()
        &&& !pre.bits()[i]
        &&& (forall|j: int| 0 <= j < i ==> pre.bits()[j])
        &&& f == pre.frame_at(i)
        &&& post.bits() == pre.bits().update(i, true)
    }

    /// What `allocate_frame` does to the allocator: on success the first
    /// free frame is issued and recorded; on failure every frame is already
    /// issued and nothing changes.
    pub open spec fn allocate_post(pre: Self, post: Self, r: Option<u64>) -> bool {
        &&& post.region() == pre.region()
        &&& post.base() == pre.base()
        &&& (r is Some ==> exists|i: int| #[trigger] Self::allocate_at(pre, post, r->0, i))
        &&& (r is None ==> post.bits() == pre.bits() && (forall|j: int|
            0 <= j < pre.bits().len() ==> pre.bits()[j]))
    }

    /// `b` is a later state of the same allocator: no frame issued in `a`
    /// has been forgotten (there is no free operation).
    pub open spec fn issued_subset(a: Self, b: Self) -> bool {
        &&& b.region() == a.region()
        &&& b.base() == a.base()
        &&& b.bits().len() == a.bits().len()
        &&& forall|i: int| 0 <= i < a.bits().len() && a.bits()[i] ==> #[trigger] b.bits()[i]
    }

    /// Walks the memory map in order and constructs the allocator over the
    /// first usable region of at least `HEAP_SIZE` bytes; fails exactly when
    /// no such region exists.
    pub fn new(regions: &Vec<MemoryRegion>) -> (r: Option<KernelFrameAllocator>)
        requires
            forall|i: int| 0 <= i < regions@.len() ==> (#[trigger] regions@[i]).wf(),
        ensures
            match r {
                Some(a) => {
                    &&& a.wf()
                    &&& exists|i: int|
                        #[trigger] Self::picked_region(regions@, i, a.region())
                    &&& Self::first_candidate(regions@) == Some(a.region())
                    &&& a.base() == crate::addr::align_up_spec(a.region().start)
                    &&& forall|k: int| 0 <= k < a.bits().len() ==> !a.bits()[k]
                    &&& a.bits().len() == if a.region().frame_capacity() <= usize::MAX {
                        a.region().frame_capacity()
                    } else {
                        usize::MAX as int
                    }
                },
                None => {
                    &&& forall|i: int|
                        0 <= i < regions@.len() ==> !(#[trigger] regions@[i]).usable_with(
                            HEAP_SIZE,
                        )
                    &&& Self::first_candidate(regions@) is None
                },
            },
    {
        let mut idx: usize = 0;
        while idx < regions.len()
            invariant
                idx <= regions@.len(),
                forall|i: int| 0 <= i < regions@.len() ==> (#[trigger] regions@[i]).wf(),
                forall|j: int| 0 <= j < idx ==> !(#[trigger] regions@[j]).usable_with(HEAP_SIZE),
            decreases regions@.len() - idx,
        {
            let rg = regions[idx];
            if rg.kind == RegionKind::Usable && rg.end - rg.start >= HEAP_SIZE {
                let rem = rg.start % PAGE_SIZE;
                let base = if rem == 0 {
                    rg.start
                } else {
                    rg.start + (PAGE_SIZE - rem)
                };
                let span = rg.end - base;
                let nframes = span / PAGE_SIZE;
                let tracked_frames: usize = if nframes <= usize::MAX as u64 {
                    nframes as usize
                } else {
                    usize::MAX
                };
                let bitmap = FrameBitmap::new_clear(tracked_frames);
                let alloc = KernelFrameAllocator { region: rg, base, bitmap };
                proof {
                    assert(alloc.bits().len() * PAGE_SIZE <= span) by (nonlinear_arith)
                        requires
                            alloc.bits().len() == tracked_frames,
                            tracked_frames <= nframes,
                            nframes == span as int / PAGE_SIZE as int,
                            span >= 0,
                            PAGE_SIZE == 4096,
                    ;
                    assert(Self::picked_region(regions@, idx as int, alloc.region()));
                    lemma_picked_is_first_candidate(regions@, idx as int, alloc.region());
                    assert(base == crate::addr::align_up_spec(rg.start));
                }
                return Some(alloc);
            }
            idx += 1;
        }
        proof {
            lemma_no_candidate(regions@);
        }
        None
    }

    /// The usable region the allocator draws from.
    pub fn backing_region(&self) -> (r: MemoryRegion)
        ensures
            r == self.region(),
    {
        self.region
    }

    /// Issues the lowest-indexed frame not yet handed out, or reports
    /// exhaustion. The returned base address always lies wholly inside the
    /// allocator's usable region.
    pub fn allocate_frame(&mut self) -> (r: Option<u64>)
        requires
            old(self).wf(),
        ensures
            final(self).wf(),
            Self::allocate_post(*old(self), *final(self), r),
    {
        match self.bitmap.first_zero() {
            Some(i) => {
                proof {
                    assert((i as int) * PAGE_SIZE + PAGE_SIZE <= self.bits().len() * PAGE_SIZE)
                        by (nonlinear_arith)
                        requires
                            0 <= i as int,
                            (i as int) < self.bits().len(),
                            PAGE_SIZE == 4096,
                    ;
                }
                let f = self.base + (i as u64) * PAGE_SIZE;
                self.bitmap.set(i, true);
                proof {
                    assert(Self::allocate_at(*old(self), *self, f, i as int));
                    lemma_allocate_post_intro(*old(self), *self, f, i as int);
                }
                Some(f)
            },
            None => None,
        }
    }
}

proof fn lemma_allocate_post_intro(
    pre: KernelFrameAllocator,
    post: KernelFrameAllocator,
    f: u64,
    i: int,
)
    requires
        KernelFrameAllocator::allocate_at(pre, post, f, i),
        post.region() == pre.region(),
        post.base() == pre.base(),
    ensures
        KernelFrameAllocator::allocate_post(pre, post, Some(f)),
{
    let r: Option<u64> = Some(f);
    assert(r->0 == f);
    assert(KernelFrameAllocator::allocate_at(pre, post, r->0, i));
    assert(exists|k: int| #[trigger] KernelFrameAllocator::allocate_at(pre, post, r->0, k));
}

/// Number of clear bits in an issue bitmap.
pub open spec fn count_clear(s: Seq<bool>) -> int
    decreases s.len(),
{
    if s.len() == 0 {
        0
    } else {
        count_clear(s.drop_last()) + if s.last() { 0int } else { 1int }
    }
}

/// The region picked by the allocator's search is the map's first
/// sufficiently large usable region.
proof fn lemma_picked_is_first_candidate(rs: Seq<MemoryRegion>, i: int, p: MemoryRegion)
    requires
        KernelFrameAllocator::picked_region(rs, i, p),
    ensures
        KernelFrameAllocator::first_candidate(rs) == Some(p),
    decreases i,
{
    if i > 0 {
        assert(!rs[0].usable_with(HEAP_SIZE));
        assert forall|j: int| 0 <= j < i - 1 implies !(#[trigger] rs.drop_first()[j].usable_with(
            HEAP_SIZE,
        )) by {
            assert(rs.drop_first()[j] == rs[j + 1]);
        }
        assert(rs.drop_first()[i - 1] == rs[i]);
        lemma_picked_is_first_candidate(rs.drop_first(), i - 1, p);
    }
}

/// A map without a sufficiently large usable region has no candidate.
proof fn lemma_no_candidate(rs: Seq<MemoryRegion>)
    requires
        forall|i: int| 0 <= i < rs.len() ==> !(#[trigger] rs[i]).usable_with(HEAP_SIZE),
    ensures
        KernelFrameAllocator::first_candidate(rs) is None,
    decreases rs.len(),
{
    if rs.len() > 0 {
        assert forall|j: int| 0 <= j < rs.drop_first().len() implies !(#[trigger] rs.drop_first()[j]).usable_with(
            HEAP_SIZE,
        ) by {
            assert(rs.drop_first()[j] == rs[j + 1]);
        }
        lemma_no_candidate(rs.drop_first());
    }
}

/// A bitmap with every bit clear has as many clear bits as its length.
pub proof fn lemma_count_clear_all_clear(s: Seq<bool>)
    requires
        forall|j: int| 0 <= j < s.len() ==> !s[j],
    ensures
        count_clear(s) == s.len(),
    decreases s.len(),
{
    if s.len() > 0 {
        assert(forall|j: int| 0 <= j < s.drop_last().len() ==> !s.drop_last()[j]);
        lemma_count_clear_all_clear(s.drop_last());
    }
}

/// The number of clear bits is between 0 and the bitmap's length.
pub proof fn lemma_count_clear_bounds(s: Seq<bool>)
    ensures
        0 <= count_clear(s) <= s.len(),
    decreases s.len(),
{
    if s.len() > 0 {
        lemma_count_clear_bounds(s.drop_last());
    }
}

/// Setting a clear bit reduces the number of clear bits by exactly one.
pub proof fn lemma_count_clear_set_one(s: Seq<bool>, i: int)
    requires
        0 <= i < s.len(),
        !s[i],
    ensures
        count_clear(s.update(i, true)) == count_clear(s) - 1,
    decreases s.len(),
{
    let t = s.update(i, true);
    if i == s.len() - 1 {
        assert(t.drop_last() =~= s.drop_last());
        assert(t.last());
        assert(!s.last());
    } else {
        assert(t.drop_last() =~= s.drop_last().update(i, true));
        assert(t.last() == s.last());
        lemma_count_clear_set_one(s.drop_last(), i);
    }
}

/// A bitmap with a clear bit has a positive clear count.
pub proof fn lemma_count_clear_pos(s: Seq<bool>, i: int)
    requires
        0 <= i < s.len(),
        !s[i],
    ensures
        count_clear(s) >= 1,
    decreases s.len(),
{
    if i == s.len() - 1 {
        lemma_count_clear_bounds(s.drop_last());
    } else {
        lemma_count_clear_pos(s.drop_last(), i);
        lemma_count_clear_bounds(s.drop_last());
    }
}

/// A bitmap with every bit set has no clear bit.
pub proof fn lemma_count_clear_all_set(s: Seq<bool>)
    requires
        forall|j: int| 0 <= j < s.len() ==> s[j],
    ensures
        count_clear(s) == 0,
    decreases s.len(),
{
    if s.len() > 0 {
        assert(forall|j: int| 0 <= j < s.drop_last().len() ==> s.drop_last()[j]);
        lemma_count_clear_all_set(s.drop_last());
    }
}

/// Law: a successful allocation returns a 4 KiB-aligned frame lying wholly
/// inside the allocator's backing region, which is marked usable.
pub proof fn lemma_allocated_frame_in_usable_region(
    pre: KernelFrameAllocator,
    post: KernelFrameAllocator,
    f: u64,
)
    requires
        pre.wf(),
        KernelFrameAllocator::allocate_post(pre, post, Some(f)),
    ensures
        pre.region().kind == RegionKind::Usable,
        pre.region().start <= f,
        f + PAGE_SIZE <= pre.region().end,
        f as int % PAGE_SIZE as int == 0,
{
    let i = choose|i: int| KernelFrameAllocator::allocate_at(pre, post, f, i);
    assert(KernelFrameAllocator::allocate_at(pre, post, f, i));
    assert(i * PAGE_SIZE + PAGE_SIZE <= pre.bits().len() * PAGE_SIZE) by (nonlinear_arith)
        requires
            0 <= i,
            i < pre.bits().len(),
            PAGE_SIZE == 4096,
    ;
    assert((pre.base() as int + i * PAGE_SIZE) % PAGE_SIZE as int == 0) by (nonlinear_arith)
        requires
            pre.base() as int % PAGE_SIZE as int == 0,
            0 <= i,
            PAGE_SIZE == 4096,
    ;
}

/// Law: absent a free operation, no two allocations ever return the same
/// physical frame. The first call issues `f1` from `pre1`; any number of
/// further allocations lead to `pre2` (issued frames are never forgotten);
/// the next call then returns a distinct frame.
pub proof fn lemma_no_frame_issued_twice(
    pre1: KernelFrameAllocator,
    post1: KernelFrameAllocator,
    f1: u64,
    pre2: KernelFrameAllocator,
    post2: KernelFrameAllocator,
    f2: u64,
)
    requires
        pre1.wf(),
        KernelFrameAllocator::allocate_post(pre1, post1, Some(f1)),
        KernelFrameAllocator::issued_subset(post1, pre2),
        KernelFrameAllocator::allocate_post(pre2, post2, Some(f2)),
    ensures
        f1 != f2,
{
    let i1 = choose|i: int| KernelFrameAllocator::allocate_at(pre1, post1, f1, i);
    assert(KernelFrameAllocator::allocate_at(pre1, post1, f1, i1));
    let i2 = choose|i: int| KernelFrameAllocator::allocate_at(pre2, post2, f2, i);
    assert(KernelFrameAllocator::allocate_at(pre2, post2, f2, i2));
    assert(post1.bits()[i1]);
    assert(pre2.bits()[i1]);
    assert(i1 != i2);
    assert(i1 * PAGE_SIZE != i2 * PAGE_SIZE) by (nonlinear_arith)
        requires
            i1 != i2,
            PAGE_SIZE == 4096,
    ;
}

} // verus!
