//! The creation of tasks: an id, an address space with a stack, and a place
//! in the table of the kernel.

use vstd::prelude::*;
use crate::abi::SysCallError;
use crate::consts::{USER_STACK_PAGES, USER_STACK_TOP_ADDR};
use crate::frame::{FrameTracker, PAGE_SIZE, frame_alloc, frame_dealloc};
use crate::kernel::Kernel;
use crate::model::KernelView;
use crate::notify::Notify;
use crate::page_table::PageTable;
use crate::task::{MicroKernelTask, Pending, TaskState, TaskView, TrapFrame};

verus! {

/// The page of the stack at the place `i`, counted down from the top.
pub open spec fn stack_page(i: int) -> usize {
    ((USER_STACK_TOP_ADDR - i * PAGE_SIZE) / (PAGE_SIZE as int)) as usize
}

/// The mappings `base` together with the first `n` pages of the stack, each
/// mapped to the frame at its place in `pages`.
pub open spec fn stack_map(base: Map<usize, usize>, pages: Seq<FrameTracker>, n: int) -> Map<usize, usize>
    decreases n,
{
    if n <= 0 {
        base
    } else {
        stack_map(base, pages, n - 1).insert(stack_page(n - 1), pages[n - 1].0)
    }
}

/// The set `free` without the first `n` of the frames `pages`.
pub open spec fn taken_out(free: Set<int>, pages: Seq<FrameTracker>, n: int) -> Set<int>
    decreases n,
{
    if n <= 0 {
        free
    } else {
        taken_out(free, pages, n - 1).remove(pages[n - 1].0 as int)
    }
}

/// Whether each of the first `n` frames of `pages` is in `free` and differs
/// from those before it.
pub open spec fn fresh_frames(free: Set<int>, pages: Seq<FrameTracker>, n: int) -> bool {
    forall|j: int| 0 <= j < n ==> taken_out(free, pages, j).contains(#[trigger] pages[j].0 as int)
}

/// What is left of a set after frames were taken out of it.
pub proof fn lemma_taken_out(free: Set<int>, pages: Seq<FrameTracker>, n: int)
    requires
        0 <= n <= pages.len(),
        free.finite(),
        fresh_frames(free, pages, n),
    ensures
        taken_out(free, pages, n).subset_of(free),
        taken_out(free, pages, n).finite(),
        taken_out(free, pages, n).len() + n == free.len(),
        forall|j: int| 0 <= j < n ==> free.contains(#[trigger] pages[j].0 as int) && !taken_out(
            free,
            pages,
            n,
        ).contains(pages[j].0 as int),
        forall|f: int|
            free.contains(f) && !taken_out(free, pages, n).contains(f) ==> exists|j: int|
                0 <= j < n && #[trigger] pages[j].0 == f,
        forall|a: int, b: int| 0 <= a < b < n ==> #[trigger] pages[a].0 != #[trigger] pages[b].0,
    decreases n,
{
    if n > 0 {
        lemma_taken_out(free, pages, n - 1);
        let before = taken_out(free, pages, n - 1);
        assert(before.contains(pages[n - 1].0 as int));
        assert forall|a: int, b: int| 0 <= a < b < n implies #[trigger] pages[a].0 != #[trigger] pages[b].0 by {
            if b == n - 1 {
                assert(!before.contains(pages[a].0 as int));
            }
        }
        assert forall|f: int| free.contains(f) && !taken_out(free, pages, n).contains(f) implies exists|
            j: int,
        |
            0 <= j < n && #[trigger] pages[j].0 == f by {
            if before.contains(f) {
                assert(pages[n - 1].0 == f);
            } else {
                let j = choose|j: int| 0 <= j < n - 1 && #[trigger] pages[j].0 == f;
                assert(0 <= j < n && pages[j].0 == f);
            }
        }
    }
}

/// The frames that were taken out depend on the first `n` of the list alone.
pub proof fn lemma_taken_out_prefix(free: Set<int>, a: Seq<FrameTracker>, b: Seq<FrameTracker>, n: int)
    requires
        0 <= n <= a.len(),
        n <= b.len(),
        forall|j: int| 0 <= j < n ==> a[j] == b[j],
    ensures
        taken_out(free, a, n) == taken_out(free, b, n),
        fresh_frames(free, a, n) == fresh_frames(free, b, n),
    decreases n,
{
    if n > 0 {
        lemma_taken_out_prefix(free, a, b, n - 1);
        assert forall|j: int| 0 <= j < n implies taken_out(free, a, j) == taken_out(free, b, j) by {
            lemma_taken_out_prefix(free, a, b, j);
        }
        if fresh_frames(free, a, n) {
            assert forall|j: int| 0 <= j < n implies taken_out(free, b, j).contains(
                #[trigger] b[j].0 as int,
            ) by {
                assert(taken_out(free, a, j).contains(a[j].0 as int));
            }
        }
        if fresh_frames(free, b, n) {
            assert forall|j: int| 0 <= j < n implies taken_out(free, a, j).contains(
                #[trigger] a[j].0 as int,
            ) by {
                assert(taken_out(free, b, j).contains(b[j].0 as int));
            }
        }
    }
}

/// The mappings of a stack depend on the first `n` frames of the list alone.
pub proof fn lemma_stack_map_prefix(base: Map<usize, usize>, a: Seq<FrameTracker>, b: Seq<FrameTracker>, n: int)
    requires
        0 <= n <= a.len(),
        n <= b.len(),
        forall|j: int| 0 <= j < n ==> a[j] == b[j],
    ensures
        stack_map(base, a, n) == stack_map(base, b, n),
    decreases n,
{
    if n > 0 {
        lemma_stack_map_prefix(base, a, b, n - 1);
    }
}

/// A task as it is when it was just created.
pub open spec fn fresh_task(tid: usize, name: Seq<char>, entry: usize, pager: Option<usize>, base: Map<usize, usize>, pages: Seq<FrameTracker>) -> TaskView {
    TaskView {
        trap_frame: TrapFrame { sepc: entry, sp: USER_STACK_TOP_ADDR, ret: 0 },
        mappings: stack_map(base, pages, USER_STACK_PAGES as int),
        pager,
        tid,
        name,
        state: TaskState::Runable,
        destroyed: false,
        timeout: 0,
        notifications: Notify::spec_new(),
        senders: Seq::empty(),
        wait_for: None,
        pages,
        message: None,
        fault: None,
        pending: Pending::Idle,
        irqs: Seq::empty(),
    }
}

impl KernelView {
    /// Whether a task can be created: the table has room for it, and enough
    /// frames are free for its stack.
    pub open spec fn can_create(self) -> bool {
        self.tasks.len() < self.max_tasks && self.free.len() >= USER_STACK_PAGES
    }

    /// The kernel after a task was created whose stack lies in `pages` and
    /// that has the mappings `base` besides its stack.
    pub open spec fn create(self, name: Seq<char>, entry: usize, pager: Option<usize>, base: Map<usize, usize>, pages: Seq<FrameTracker>) -> KernelView {
        KernelView {
            tasks: self.tasks.push(
                fresh_task((self.tasks.len() + 1) as usize, name, entry, pager, base, pages),
            ),
            free: taken_out(self.free, pages, USER_STACK_PAGES as int),
            ..self
        }
    }

    /// Whether `n` is the kernel after some task with this name, entry point,
    /// pager and these mappings besides its stack was created: the frames of
    /// its stack were free before, and no two of them are the same.
    pub open spec fn created(self, n: KernelView, name: Seq<char>, entry: usize, pager: Option<usize>, base: Map<usize, usize>) -> bool {
        let pages = n.tasks.last().pages;
        &&& n.tasks.len() == self.tasks.len() + 1
        &&& pages.len() == USER_STACK_PAGES
        &&& fresh_frames(self.free, pages, USER_STACK_PAGES as int)
        &&& n == self.create(name, entry, pager, base, pages)
    }
}

/// The creation of a task keeps what holds of every kernel.
pub proof fn lemma_create_wf(k: KernelView, name: Seq<char>, entry: usize, pager: Option<usize>, base: Map<usize, usize>, pages: Seq<FrameTracker>)
    requires
        k.wf(),
        k.tasks.len() < k.max_tasks,
        pages.len() == USER_STACK_PAGES,
        fresh_frames(k.free, pages, USER_STACK_PAGES as int),
    ensures
        k.create(name, entry, pager, base, pages).wf(),
{
    let n = k.create(name, entry, pager, base, pages);
    let new_tid = (k.tasks.len() + 1) as usize;
    vstd::set_lib::lemma_len_subset(k.free, k.managed);
    lemma_taken_out(k.free, pages, USER_STACK_PAGES as int);
    assert forall|t: usize| n.has(t) implies #[trigger] n.task_ok(t) by {
        if t != new_tid {
            assert(k.task_ok(t));
            assert(n.task(t) == k.task(t));
            assert forall|i: int| 0 <= i < n.task(t).senders.len() implies n.queued_ok(
                t,
                #[trigger] n.task(t).senders[i],
            ) by {
                let y = k.task(t).senders[i];
                assert(k.queued_ok(t, y));
                assert(n.task(y) == k.task(y));
            }
        }
    }
    assert forall|t: usize, i: int| n.has(t) && 0 <= i < n.task(t).pages.len() implies n.managed.contains(
        #[trigger] n.owned(t, i),
    ) && !n.free.contains(n.owned(t, i)) by {
        if t != new_tid {
            assert(n.task(t) == k.task(t));
            assert(k.owned(t, i) == n.owned(t, i));
        } else {
            assert(n.owned(t, i) == pages[i].0);
        }
    }
    assert forall|t1: usize, i1: int, t2: usize, i2: int|
        n.has(t1) && 0 <= i1 < n.task(t1).pages.len() && n.has(t2) && 0 <= i2 < n.task(
            t2,
        ).pages.len() && (t1 != t2 || i1 != i2) implies #[trigger] n.owned(t1, i1) != #[trigger] n.owned(
        t2,
        i2,
    ) by {
        if t1 != new_tid {
            assert(n.task(t1) == k.task(t1));
            assert(k.owned(t1, i1) == n.owned(t1, i1));
        } else {
            assert(n.owned(t1, i1) == pages[i1].0);
        }
        if t2 != new_tid {
            assert(n.task(t2) == k.task(t2));
            assert(k.owned(t2, i2) == n.owned(t2, i2));
        } else {
            assert(n.owned(t2, i2) == pages[i2].0);
        }
        if t1 == new_tid && t2 == new_tid {
            if i1 < i2 {
                assert(pages[i1].0 != pages[i2].0);
            } else {
                assert(pages[i2].0 != pages[i1].0);
            }
        }
    }
}

impl MicroKernelTask {
    /// Creates a task with the given mappings, to which its stack is added.
    pub(crate) fn create(kernel: &mut Kernel, name: String, entry_point: usize, pager: Option<usize>, table: PageTable) -> (r: Result<usize, SysCallError>)
        requires
            old(kernel).wf(),
            table.wf(),
        ensures
            final(kernel).wf(),
            match r {
                Ok(tid) => tid == old(kernel)@.tasks.len() + 1 && old(kernel)@.created(
                    final(kernel)@,
                    name@,
                    entry_point,
                    pager,
                    table@,
                ),
                Err(e) => final(kernel)@ == old(kernel)@ && e == if old(kernel)@.tasks.len() >= old(kernel)@.max_tasks {
                    SysCallError::TooManyTasks
                } else {
                    SysCallError::NoMemory
                },
            },
            r is Ok <==> old(kernel)@.can_create(),
    {
        if kernel.tasks.len() >= kernel.max_tasks {
            return Err(SysCallError::TooManyTasks);
        }
        let ghost free = kernel@.free;
        let ghost base = table@;
        proof {
            vstd::set_lib::lemma_len_subset(kernel@.free, kernel@.managed);
        }
        let mut table = table;
        let mut pages: Vec<FrameTracker> = Vec::new();
        let mut i: usize = 0;
        while i < USER_STACK_PAGES
            invariant
                i <= USER_STACK_PAGES,
                pages@.len() == i,
                old(kernel).wf(),
                old(kernel)@.tasks.len() < old(kernel)@.max_tasks,
                kernel.tasks == old(kernel).tasks,
                kernel.max_tasks == old(kernel).max_tasks,
                kernel.kernel_base == old(kernel).kernel_base,
                kernel.frames.wf(),
                kernel.frames.managed() == old(kernel)@.managed,
                free == old(kernel)@.free,
                free.finite(),
                free.subset_of(old(kernel)@.managed),
                kernel.frames.free() == taken_out(free, pages@, i as int),
                fresh_frames(free, pages@, i as int),
                table.wf(),
                table@ == stack_map(base, pages@, i as int),
            decreases USER_STACK_PAGES - i,
        {
            let ghost before = pages@;
            let mut page = frame_alloc(&mut kernel.frames, 1);
            proof {
                lemma_taken_out(free, before, i as int);
            }
            if page.len() == 0 {
                while pages.len() > 0
                    invariant
                        pages@.len() <= USER_STACK_PAGES,
                        old(kernel).wf(),
                        old(kernel)@.tasks.len() < old(kernel)@.max_tasks,
                        free.len() < USER_STACK_PAGES,
                        kernel.tasks == old(kernel).tasks,
                        kernel.max_tasks == old(kernel).max_tasks,
                        kernel.kernel_base == old(kernel).kernel_base,
                        kernel.frames.wf(),
                        kernel.frames.managed() == old(kernel)@.managed,
                        free == old(kernel)@.free,
                        free.finite(),
                        free.subset_of(old(kernel)@.managed),
                        kernel.frames.free() == taken_out(free, pages@, pages@.len() as int),
                        fresh_frames(free, pages@, pages@.len() as int),
                    decreases pages.len(),
                {
                    let ghost held = pages@;
                    let last = pages.pop().unwrap();
                    proof {
                        let n = held.len() as int;
                        lemma_taken_out(free, held, n);
                        lemma_taken_out(free, held, n - 1);
                        lemma_taken_out_prefix(free, held, pages@, n - 1);
                        assert(taken_out(free, held, n - 1).contains(held[n - 1].0 as int));
                    }
                    frame_dealloc(&mut kernel.frames, last.0);
                    proof {
                        let n = held.len() as int;
                        assert(taken_out(free, held, n).insert(held[n - 1].0 as int) =~= taken_out(
                            free,
                            held,
                            n - 1,
                        ));
                    }
                }
                proof {
                    assert(kernel@.tasks =~= old(kernel)@.tasks);
                    assert(kernel@.free == old(kernel)@.free);
                    assert(kernel@ == old(kernel)@);
                }
                return Err(SysCallError::NoMemory);
            }
            let frame = page[0];
            proof {
                assert(crate::frame::frame_range(frame.0 as int, frame.0 + 1).contains(frame.0 as int));
                assert(kernel.frames.free() =~= taken_out(free, before, i as int).remove(
                    frame.0 as int,
                )) by {
                    assert forall|f: int| kernel.frames.free().contains(f) == taken_out(
                        free,
                        before,
                        i as int,
                    ).remove(frame.0 as int).contains(f) by {
                        if f == frame.0 {
                            assert(crate::frame::frame_range(frame.0 as int, frame.0 + 1).contains(f));
                        }
                    }
                }
                assert(frame.0 * PAGE_SIZE + PAGE_SIZE <= usize::MAX);
                assert(frame.0 <= usize::MAX / PAGE_SIZE) by (nonlinear_arith)
                    requires
                        frame.0 * PAGE_SIZE + PAGE_SIZE <= usize::MAX,
                        PAGE_SIZE == 4096,
                ;
            }
            table.map_page((USER_STACK_TOP_ADDR - i * PAGE_SIZE) / PAGE_SIZE, frame.0);
            pages.push(frame);
            proof {
                lemma_taken_out_prefix(free, before, pages@, i as int);
                lemma_stack_map_prefix(base, before, pages@, i as int);
                assert forall|j: int| 0 <= j < i + 1 implies taken_out(free, pages@, j).contains(
                    #[trigger] pages@[j].0 as int,
                ) by {
                    lemma_taken_out_prefix(free, before, pages@, j);
                    if j < i {
                        assert(taken_out(free, before, j).contains(before[j].0 as int));
                    }
                }
            }
            i = i + 1;
        }
        let tid: usize = kernel.tasks.len() + 1;
        proof {
            lemma_create_wf(old(kernel)@, name@, entry_point, pager, base, pages@);
            lemma_taken_out(free, pages@, USER_STACK_PAGES as int);
        }
        kernel.tasks.push(
            MicroKernelTask {
                trap_frame: TrapFrame { sepc: entry_point, sp: USER_STACK_TOP_ADDR, ret: 0 },
                page_table: table,
                pager,
                tid,
                name,
                state: TaskState::Runable,
                destoryed: false,
                timeout: 0,
                notifications: Notify::new(),
                senders: Vec::new(),
                wait_for: None,
                pages,
                message: None,
                fault: None,
                pending: Pending::Idle,
                irqs: Vec::new(),
            },
        );
        proof {
            assert(kernel@.tasks =~= old(kernel)@.create(name@, entry_point, pager, base, pages@).tasks);
            assert(kernel@.tasks.last().pages == pages@);
        }
        Ok(tid)
    }

    /// Creates a task with this name that starts at `entry_point` and whose
    /// page faults go to `pager`, with a stack of its own, and returns its id.
    /// The task can run at once. The call fails with `TooManyTasks` where the
    /// table of tasks is full, and else with `NoMemory` where fewer frames are
    /// free than the stack needs; the kernel is then as it was.
    pub fn new(kernel: &mut Kernel, name: &str, entry_point: usize, pager: Option<usize>) -> (r: Result<usize, SysCallError>)
        requires
            old(kernel).wf(),
        ensures
            final(kernel).wf(),
            match r {
                Ok(tid) => tid == old(kernel)@.tasks.len() + 1 && old(kernel)@.created(
                    final(kernel)@,
                    name@,
                    entry_point,
                    pager,
                    Map::empty(),
                ),
                Err(e) => final(kernel)@ == old(kernel)@ && e == if old(kernel)@.tasks.len() >= old(kernel)@.max_tasks {
                    SysCallError::TooManyTasks
                } else {
                    SysCallError::NoMemory
                },
            },
            r is Ok <==> old(kernel)@.can_create(),
    {
        MicroKernelTask::create(kernel, name.to_owned(), entry_point, pager, PageTable::new())
    }
}

} // verus!
