//! The kernel: the table of all tasks and the pool of frames.

use vstd::prelude::*;
use crate::frame::{add_frame_range, usable_frames, FramePool, PAGE_SIZE};
use crate::model::KernelView;
use crate::task::{pool_serves, MicroKernelTask};

verus! {

/// The kernel.
pub struct Kernel {
    /// The tasks that were ever created; the task with the id `t` is at `t - 1`.
    pub tasks: Vec<MicroKernelTask>,
    /// The pool of physical frames.
    pub frames: FramePool,
    /// The number of tasks that can be created.
    pub max_tasks: usize,
    /// The address at which the kernel's own part of every address space begins.
    pub kernel_base: usize,
}

impl View for Kernel {
    type V = KernelView;

    open spec fn view(&self) -> KernelView {
        KernelView {
            tasks: self.tasks@.map_values(|t: MicroKernelTask| t@),
            free: self.frames.free(),
            managed: self.frames.managed(),
            max_tasks: self.max_tasks,
            kernel_base: self.kernel_base,
        }
    }
}

impl KernelView {
    /// The kernel after the frames `more` were given to it: they are managed, and free.
    pub open spec fn add_memory(self, more: Set<int>) -> KernelView {
        KernelView { free: self.free.union(more), managed: self.managed.union(more), ..self }
    }
}

/// Frames that the kernel did not manage before, given to it, keep what
/// holds of every kernel.
pub proof fn lemma_add_memory_wf(k: KernelView, more: Set<int>)
    requires
        k.wf(),
        more.finite(),
        k.managed.disjoint(more),
        forall|f: int| more.contains(f) ==> 0 <= f && f * PAGE_SIZE + PAGE_SIZE <= usize::MAX,
    ensures
        k.add_memory(more).wf(),
{
    let n = k.add_memory(more);
    assert forall|t: usize| n.has(t) implies #[trigger] n.task_ok(t) by {
        assert(k.task_ok(t));
        assert forall|i: int| 0 <= i < n.task(t).senders.len() implies n.queued_ok(
            t,
            #[trigger] n.task(t).senders[i],
        ) by {
            assert(k.queued_ok(t, k.task(t).senders[i]));
        }
    }
    assert forall|t: usize, i: int| n.has(t) && 0 <= i < n.task(t).pages.len() implies n.managed.contains(
        #[trigger] n.owned(t, i),
    ) && !n.free.contains(n.owned(t, i)) by {
        assert(k.owned(t, i) == n.owned(t, i));
        assert(k.managed.contains(k.owned(t, i)));
    }
    assert forall|t1: usize, i1: int, t2: usize, i2: int|
        n.has(t1) && 0 <= i1 < n.task(t1).pages.len() && n.has(t2) && 0 <= i2 < n.task(
            t2,
        ).pages.len() && (t1 != t2 || i1 != i2) implies #[trigger] n.owned(t1, i1) != #[trigger] n.owned(
        t2,
        i2,
    ) by {
        assert(k.owned(t1, i1) == n.owned(t1, i1));
        assert(k.owned(t2, i2) == n.owned(t2, i2));
    }
}

impl Kernel {
    /// What holds of every kernel: what holds of it as a mathematical value,
    /// and that the address space of every task is well formed.
    pub open spec fn wf(&self) -> bool {
        &&& self@.wf()
        &&& forall|i: int| 0 <= i < self.tasks@.len() ==> (#[trigger] self.tasks@[i]).wf()
    }

    /// Whether the pool of frames serves a request of `size` bytes: the size
    /// is not 0, and the pool has a block for that many pages.
    pub open spec fn serves(&self, size: usize) -> bool {
        pool_serves(self.frames, size)
    }

    /// A kernel without tasks and without frames, in which `max_tasks` tasks
    /// can be created.
    pub fn new(max_tasks: usize, kernel_base: usize) -> (r: Kernel)
        requires
            max_tasks < usize::MAX,
        ensures
            r.wf(),
            r@.tasks.len() == 0,
            r@.free == Set::<int>::empty(),
            r@.managed == Set::<int>::empty(),
            r@.max_tasks == max_tasks,
            r@.kernel_base == kernel_base,
    {
        Kernel { tasks: Vec::new(), frames: FramePool::new(), max_tasks, kernel_base }
    }

    /// Gives the frames of the memory from `mm_start` to `mm_end` to the
    /// kernel. Where the kernel image, which ends at `kernel_end`, ends inside
    /// the range, only the frames above it are given.
    pub fn add_memory(&mut self, mm_start: usize, mm_end: usize, kernel_end: usize)
        requires
            old(self).wf(),
            mm_start <= mm_end,
            kernel_end <= usize::MAX - PAGE_SIZE,
            old(self)@.managed.disjoint(usable_frames(mm_start, mm_end, kernel_end)),
        ensures
            final(self).wf(),
            final(self)@ == old(self)@.add_memory(usable_frames(mm_start, mm_end, kernel_end)),
    {
        add_frame_range(&mut self.frames, mm_start, mm_end, kernel_end);
        proof {
            lemma_add_memory_wf(old(self)@, usable_frames(mm_start, mm_end, kernel_end));
        }
    }

    /// Whether the task with this id exists and was not destroyed.
    pub fn is_live(&self, tid: usize) -> (r: bool)
        ensures
            r == self@.live(tid),
    {
        tid >= 1 && tid <= self.tasks.len() && !self.tasks[tid - 1].destoryed
    }

    /// The task with this id, if there is one that was not destroyed.
    pub fn tid2task(&self, tid: usize) -> (r: Option<&MicroKernelTask>)
        ensures
            r is Some == self@.live(tid),
            r matches Some(t) ==> t@ == self@.task(tid) && *t == self.tasks@[tid - 1],
    {
        if self.is_live(tid) {
            Some(&self.tasks[tid - 1])
        } else {
            None
        }
    }

    /// The number of tasks that were ever created.
    pub fn task_count(&self) -> (r: usize)
        ensures
            r == self@.tasks.len(),
    {
        self.tasks.len()
    }
}

} // verus!
