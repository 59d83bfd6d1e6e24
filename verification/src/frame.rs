//! Physical frames: the pool that hands them out, which is a buddy allocator
//! over frame numbers, and the record of a frame that a task owns.

use vstd::prelude::*;
use buddy_system_allocator::FrameAllocator;
use crate::utils::align_up;

verus! {

/// The size of a page and of a frame, in bytes.
pub const PAGE_SIZE: usize = 4096;

/// The largest number of frames that one allocation can ask for.
pub const MAX_FRAME_COUNT: usize = 0x8000_0000;

/// The pool of physical frames: a buddy allocator over frame numbers.
#[verifier::external_type_specification]
#[verifier::external_body]
pub struct ExFrameAllocator<const ORDER: usize>(FrameAllocator<ORDER>);

/// The frames of a pool that are free.
pub uninterp spec fn pool_free(pool: FrameAllocator<32>) -> Set<int>;

/// The frames that were ever given to a pool, free or not.
pub uninterp spec fn pool_managed(pool: FrameAllocator<32>) -> Set<int>;

/// Whether `FrameAllocator::alloc` finds a block for `count` frames in a pool.
pub uninterp spec fn pool_fits(pool: FrameAllocator<32>, count: usize) -> bool;

/// The least power of two that is not below `n`.
pub open spec fn next_power_of_two(n: nat) -> nat
    decreases n,
{
    if n <= 1 {
        1
    } else {
        2 * next_power_of_two((n + 1) / 2)
    }
}

/// The frame numbers from `start` up to, and without, `end`.
pub open spec fn frame_range(start: int, end: int) -> Set<int> {
    Set::new(|f: int| start <= f < end)
}

/// `FrameAllocator::new` of buddy_system_allocator: the pool that it makes
/// manages no frame, so none is free.
#[verifier::external_body]
pub(crate) fn pool_new() -> (pool: FrameAllocator<32>)
    ensures
        pool_free(pool) == Set::<int>::empty(),
        pool_managed(pool) == Set::<int>::empty(),
{
    FrameAllocator::new()
}

/// `FrameAllocator::add_frame` of buddy_system_allocator: it cuts the range
/// `[start, end)` into blocks and puts each on a free list, so that exactly
/// the frames of the range become free. It panics where `start` is above
/// `end`; a range that overlaps what the pool manages already would be held
/// twice.
#[verifier::external_body]
pub(crate) fn pool_add_frame(pool: &mut FrameAllocator<32>, start: usize, end: usize)
    requires
        start <= end,
        pool_managed(*old(pool)).disjoint(frame_range(start as int, end as int)),
    ensures
        pool_free(*final(pool)) == pool_free(*old(pool)).union(
            frame_range(start as int, end as int),
        ),
        pool_managed(*final(pool)) == pool_managed(*old(pool)).union(
            frame_range(start as int, end as int),
        ),
{
    pool.add_frame(start, end)
}

/// `FrameAllocator::alloc` of buddy_system_allocator: it rounds `count` up to
/// a power of two, takes a free block of that size (splitting a larger one
/// where it must) and returns its first frame, or `None` where no block is
/// large enough; which block it takes is not stated here. Every frame of the
/// block was free and is free no longer; no other frame changes. A single
/// frame is found whenever any frame is free, since every free block can be
/// split down to one. The block begins at a multiple of its size: every
/// block on a free list does, since `add_frame` cuts a range at such places
/// and halves and buddies keep them. Whether a block is found depends on
/// the pool and on `count` alone.
#[verifier::external_body]
pub(crate) fn pool_alloc(pool: &mut FrameAllocator<32>, count: usize) -> (r: Option<usize>)
    requires
        count <= MAX_FRAME_COUNT,
    ensures
        pool_managed(*final(pool)) == pool_managed(*old(pool)),
        r is Some <==> pool_fits(*old(pool), count),
        count <= 1 ==> (r is None <==> pool_free(*old(pool)) == Set::<int>::empty()),
        match r {
            Some(start) => {
                let block = frame_range(
                    start as int,
                    start + next_power_of_two(count as nat),
                );
                &&& start as nat % next_power_of_two(count as nat) == 0
                &&& block.subset_of(pool_free(*old(pool)))
                &&& pool_free(*final(pool)) == pool_free(*old(pool)).difference(block)
            },
            None => pool_free(*final(pool)) == pool_free(*old(pool)),
        },
{
    pool.alloc(count)
}

/// `FrameAllocator::dealloc` of buddy_system_allocator, for one frame: it
/// puts the frame back on a free list and joins it with its buddy where that
/// is free too, so that exactly this frame becomes free. The frame must be
/// one that the pool has handed out and not got back.
#[verifier::external_body]
pub(crate) fn pool_dealloc(pool: &mut FrameAllocator<32>, frame: usize)
    requires
        pool_managed(*old(pool)).contains(frame as int),
        !pool_free(*old(pool)).contains(frame as int),
    ensures
        pool_free(*final(pool)) == pool_free(*old(pool)).insert(frame as int),
        pool_managed(*final(pool)) == pool_managed(*old(pool)),
{
    pool.dealloc(frame, 1)
}

/// A physical frame that a task owns, by its number.
#[derive(Debug, Clone, Copy, PartialEq, Eq, Structural)]
pub struct FrameTracker(pub usize);

/// The pool of physical frames. Only the functions of this file change it.
pub struct FramePool {
    inner: FrameAllocator<32>,
}

impl FramePool {
    /// The frames that are free.
    pub closed spec fn free(&self) -> Set<int> {
        pool_free(self.inner)
    }

    /// The frames that were ever given to the pool, free or not.
    pub closed spec fn managed(&self) -> Set<int> {
        pool_managed(self.inner)
    }

    /// Whether the pool has a block for `count` frames that follow one another.
    pub closed spec fn fits(&self, count: usize) -> bool {
        pool_fits(self.inner, count)
    }

    /// Whether the pool hands out a run of `pages` frames: the number is
    /// neither 0 nor above what one allocation can hold, and the pool has a
    /// block for it.
    pub open spec fn serves(&self, pages: int) -> bool {
        0 < pages <= MAX_FRAME_COUNT && self.fits(pages as usize)
    }

    /// Every frame that the pool is free to hand out lies inside what it
    /// manages, and every frame that it manages has an address that fits a word.
    pub open spec fn wf(&self) -> bool {
        &&& self.managed().finite()
        &&& self.free().subset_of(self.managed())
        &&& forall|f: int|
            self.managed().contains(f) ==> 0 <= f && f * PAGE_SIZE + PAGE_SIZE <= usize::MAX
    }

    /// A pool that manages no frame.
    pub fn new() -> (r: FramePool)
        ensures
            r.wf(),
            r.free() == Set::<int>::empty(),
            r.managed() == Set::<int>::empty(),
    {
        FramePool { inner: pool_new() }
    }
}

/// The frames of the memory from `mm_start` to `mm_end` that lie above the
/// kernel image, which ends at `kernel_end`.
pub open spec fn usable_frames(mm_start: usize, mm_end: usize, kernel_end: usize) -> Set<int> {
    let first = mm_start as int / PAGE_SIZE as int;
    let last = mm_end as int / PAGE_SIZE as int;
    let kernel = crate::utils::spec_align_up(kernel_end as int, PAGE_SIZE as int) / PAGE_SIZE as int;
    if first <= kernel <= last {
        frame_range(kernel, last)
    } else {
        frame_range(first, last)
    }
}

/// Gives the frames of a range of memory to the pool. Where the kernel image
/// ends inside the range, only the frames above it are given.
pub fn add_frame_range(pool: &mut FramePool, mm_start: usize, mm_end: usize, kernel_end: usize)
    requires
        old(pool).wf(),
        mm_start <= mm_end,
        kernel_end <= usize::MAX - PAGE_SIZE,
        old(pool).managed().disjoint(usable_frames(mm_start, mm_end, kernel_end)),
    ensures
        final(pool).wf(),
        usable_frames(mm_start, mm_end, kernel_end).finite(),
        forall|f: int|
            usable_frames(mm_start, mm_end, kernel_end).contains(f) ==> 0 <= f && f * PAGE_SIZE
                + PAGE_SIZE <= usize::MAX,
        final(pool).free() == old(pool).free().union(
            usable_frames(mm_start, mm_end, kernel_end),
        ),
        final(pool).managed() == old(pool).managed().union(
            usable_frames(mm_start, mm_end, kernel_end),
        ),
{
    let mut frame_start: usize = mm_start / PAGE_SIZE;
    let frame_end: usize = mm_end / PAGE_SIZE;
    let kernel_end: usize = align_up(kernel_end, PAGE_SIZE) / PAGE_SIZE;
    if frame_start <= kernel_end && kernel_end <= frame_end {
        frame_start = kernel_end;
    }
    assert(frame_end * PAGE_SIZE <= mm_end) by (nonlinear_arith)
        requires
            frame_end == mm_end / PAGE_SIZE,
            PAGE_SIZE == 4096,
    ;
    proof {
        vstd::set_lib::lemma_int_range(frame_start as int, frame_end as int);
        assert(frame_range(frame_start as int, frame_end as int) =~= vstd::set_lib::set_int_range(
            frame_start as int,
            frame_end as int,
        ));
    }
    assert forall|f: int| frame_range(frame_start as int, frame_end as int).contains(f) implies 0
        <= f && f * PAGE_SIZE + PAGE_SIZE <= usize::MAX by {
        assert(f * PAGE_SIZE + PAGE_SIZE <= frame_end * PAGE_SIZE) by (nonlinear_arith)
            requires
                f < frame_end,
                PAGE_SIZE == 4096,
        ;
    }
    pool_add_frame(&mut pool.inner, frame_start, frame_end);
}

/// Takes `pages` frames that follow one another out of the pool; the first
/// of them has a number that is a multiple of `pages` rounded up to a power of
/// two. The result is empty where the pool has no block for such a run of
/// frames, or where `pages` is 0 or above what one allocation can hold.
pub fn frame_alloc(pool: &mut FramePool, pages: usize) -> (r: Vec<FrameTracker>)
    requires
        old(pool).wf(),
    ensures
        final(pool).wf(),
        final(pool).managed() == old(pool).managed(),
        r.len() == 0 || r.len() == pages,
        r.len() == 0 ==> final(pool).free() == old(pool).free(),
        r.len() > 0 <==> old(pool).serves(pages as int),
        pages == 1 ==> (r.len() == 0 <==> old(pool).free() == Set::<int>::empty()),
        r.len() > 0 ==> final(pool).free() == old(pool).free().difference(
            frame_range(r[0].0 as int, r[0].0 + next_power_of_two(pages as nat)),
        ),
        r.len() > 0 ==> {
            let first = r[0].0 as int;
            &&& first as nat % next_power_of_two(pages as nat) == 0
            &&& forall|i: int| 0 <= i < pages ==> (#[trigger] r[i]).0 == first + i
            &&& frame_range(first, first + pages).subset_of(old(pool).free())
            &&& final(pool).free().subset_of(old(pool).free())
            &&& final(pool).free().disjoint(frame_range(first, first + pages))
        },
{
    let mut ret: Vec<FrameTracker> = Vec::new();
    if pages == 0 || pages > MAX_FRAME_COUNT {
        return ret;
    }
    let found = pool_alloc(&mut pool.inner, pages);
    if let Some(x) = found {
        proof {
            lemma_next_power_of_two(pages as nat);
        }
        let ghost block = frame_range(x as int, x + next_power_of_two(pages as nat));
        assert(block.contains(x + pages - 1));
        assert(old(pool).managed().contains(x + pages - 1));
        let mut i: usize = 0;
        while i < pages
            invariant
                i <= pages,
                ret.len() == i,
                x + pages - 1 <= usize::MAX,
                forall|j: int| 0 <= j < i ==> (#[trigger] ret[j]).0 == x + j,
            decreases pages - i,
        {
            ret.push(FrameTracker(x + i));
            i = i + 1;
        }
        assert forall|f: int| frame_range(x as int, x + pages).contains(f) implies block.contains(
            f,
        ) by {}
    }
    ret
}

/// A power of two is at least the number that it was rounded up from.
pub proof fn lemma_next_power_of_two(n: nat)
    ensures
        n <= next_power_of_two(n),
        1 <= next_power_of_two(n),
    decreases n,
{
    if n > 1 {
        lemma_next_power_of_two((n + 1) / 2);
    }
}

/// Takes one frame out of the pool, for good.
pub fn frame_alloc_persist(pool: &mut FramePool) -> (r: Option<usize>)
    requires
        old(pool).wf(),
    ensures
        final(pool).wf(),
        final(pool).managed() == old(pool).managed(),
        match r {
            Some(f) => old(pool).free().contains(f as int) && final(pool).free()
                == old(pool).free().remove(f as int),
            None => final(pool).free() == old(pool).free(),
        },
        r is None <==> old(pool).free() == Set::<int>::empty(),
        r is Some <==> old(pool).serves(1),
{
    let found = pool_alloc(&mut pool.inner, 1);
    proof {
        assert(next_power_of_two(1) == 1);
        if let Some(f) = found {
            assert(frame_range(f as int, f + 1) =~= set![f as int]);
            assert(frame_range(f as int, f + 1).contains(f as int));
            assert(old(pool).free().difference(set![f as int]) =~= old(pool).free().remove(
                f as int,
            ));
        }
    }
    found
}

/// Gives one frame back to the pool.
pub fn frame_dealloc(pool: &mut FramePool, ppn: usize)
    requires
        old(pool).wf(),
        old(pool).managed().contains(ppn as int),
        !old(pool).free().contains(ppn as int),
    ensures
        final(pool).wf(),
        final(pool).free() == old(pool).free().insert(ppn as int),
        final(pool).managed() == old(pool).managed(),
{
    pool_dealloc(&mut pool.inner, ppn)
}

} // verus!
