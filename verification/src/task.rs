//! The task: the kernel's unit of scheduling and of address-space ownership,
//! with the part of its life that needs no other task.

use vstd::prelude::*;
use crate::abi::{FROM_KERNEL, IPC_ANY};
use crate::flags::{PMAllocFlags, PageFaultReason};
use crate::frame::{FramePool, FrameTracker, PAGE_SIZE, frame_alloc, frame_range};
use crate::message::{Message, MessageContent};
use crate::notify::{Notify, NotifyEnum};
use crate::page_table::{page_of, PageTable};
use crate::utils::{align_up, spec_align_up};

verus! {

/// The state of a task.
#[derive(Debug, Clone, Copy, PartialEq, Eq, Structural)]
pub enum TaskState {
    /// The task is not in use yet.
    UnUsed,
    /// The task can run.
    Runable,
    /// The task waits for another task.
    Blocked,
}

/// The registers of a task that the kernel reads and writes.
#[derive(Debug, Clone, Copy)]
pub struct TrapFrame {
    /// The instruction at which user mode goes on.
    pub sepc: usize,
    /// The stack pointer.
    pub sp: usize,
    /// The register that takes the result of a system call.
    pub ret: usize,
}

impl TrapFrame {
    /// A frame with every register at zero.
    pub fn new() -> (r: TrapFrame)
        ensures
            r.sepc == 0,
            r.sp == 0,
            r.ret == 0,
    {
        TrapFrame { sepc: 0, sp: 0, ret: 0 }
    }
}

/// The message passing that a task has begun and not finished.
#[derive(Debug, Clone, Copy)]
pub enum Pending {
    /// None.
    Idle,
    /// The task waits until `dst` takes its message, which comes from the
    /// kernel where `from_kernel` says so. Once that is done it goes on to
    /// receive from the task that `then_recv` names, if it names one.
    Sending { dst: usize, content: MessageContent, from_kernel: bool, then_recv: Option<usize> },
    /// The task waits for a message.
    Receiving,
}

/// A task.
pub struct MicroKernelTask {
    /// The registers of the task.
    pub trap_frame: TrapFrame,
    /// The address space of the task.
    pub page_table: PageTable,
    /// The task that serves the page faults of this one.
    pub pager: Option<usize>,
    /// The id of the task.
    pub tid: usize,
    /// The name of the task.
    pub name: String,
    /// The state of the task.
    pub state: TaskState,
    /// Whether the task was destroyed.
    pub destoryed: bool,
    /// The time, in nanoseconds, at which the timeout of the task passes; 0 where none is armed.
    pub timeout: usize,
    /// The notifications that wait for the task.
    pub notifications: Notify,
    /// The tasks that wait to send to this one, in the order in which they came.
    pub senders: Vec<usize>,
    /// Whom the task waits to receive from.
    pub wait_for: Option<usize>,
    /// The frames that the task owns.
    pub pages: Vec<FrameTracker>,
    /// The message that was handed to the task and that it has not taken yet.
    pub message: Option<Message>,
    /// The page fault of the task that was not dealt with yet: the address, the instruction and the reason.
    pub fault: Option<(usize, usize, PageFaultReason)>,
    /// The message passing that the task is in the middle of.
    pub pending: Pending,
    /// The interrupt lines that the task listens to.
    pub irqs: Vec<usize>,
}

/// A task as a mathematical value.
pub struct TaskView {
    pub trap_frame: TrapFrame,
    pub mappings: Map<usize, usize>,
    pub pager: Option<usize>,
    pub tid: usize,
    pub name: Seq<char>,
    pub state: TaskState,
    pub destroyed: bool,
    pub timeout: usize,
    pub notifications: Notify,
    pub senders: Seq<usize>,
    pub wait_for: Option<usize>,
    pub pages: Seq<FrameTracker>,
    pub message: Option<Message>,
    pub fault: Option<(usize, usize, PageFaultReason)>,
    pub pending: Pending,
    pub irqs: Seq<usize>,
}

impl View for MicroKernelTask {
    type V = TaskView;

    open spec fn view(&self) -> TaskView {
        TaskView {
            trap_frame: self.trap_frame,
            mappings: self.page_table@,
            pager: self.pager,
            tid: self.tid,
            name: self.name@,
            state: self.state,
            destroyed: self.destoryed,
            timeout: self.timeout,
            notifications: self.notifications,
            senders: self.senders@,
            wait_for: self.wait_for,
            pages: self.pages@,
            message: self.message,
            fault: self.fault,
            pending: self.pending,
            irqs: self.irqs@,
        }
    }
}

/// The message that carries a set of notifications.
pub open spec fn notify_message(n: Notify) -> Message {
    Message { source: FROM_KERNEL, content: MessageContent::NotifyField { notications: n } }
}

impl TaskView {
    /// Whether the task waits for a message of any sender.
    pub open spec fn waits_for_any(self) -> bool {
        self.state == TaskState::Blocked && self.wait_for == Some(IPC_ANY)
    }

    /// The task after it was notified. A task that waits for any sender gets
    /// the new notifications, together with those that were pending, as a
    /// message and runs again; with any other task they are left pending.
    pub open spec fn notify(self, n: Notify) -> TaskView {
        if self.waits_for_any() {
            TaskView {
                message: Some(notify_message(self.notifications.spec_bitor(n))),
                notifications: Notify::spec_new(),
                state: TaskState::Runable,
                ..self
            }
        } else {
            TaskView { notifications: self.notifications.spec_bitor(n), ..self }
        }
    }

    /// The task after it began to listen to the interrupt line `irq`.
    pub open spec fn listen(self, irq: usize) -> TaskView {
        if self.irqs.contains(irq) {
            self
        } else {
            TaskView { irqs: self.irqs.push(irq), ..self }
        }
    }

    /// The task after it stopped to listen to the interrupt line `irq`.
    pub open spec fn unlisten(self, irq: usize) -> TaskView {
        TaskView { irqs: self.irqs.remove_value(irq), ..self }
    }

    /// The task after the interrupt `irq` has occurred: a task that lives
    /// and listens to the line is notified of an interrupt.
    pub open spec fn interrupted(self, irq: usize) -> TaskView {
        if !self.destroyed && self.irqs.contains(irq) {
            self.notify(Notify::spec_from(NotifyEnum::IRQ))
        } else {
            self
        }
    }

    /// Whether the timeout of the task has passed at the time `now`.
    pub open spec fn timed_out(self, now: usize) -> bool {
        self.timeout != 0 && now >= self.timeout
    }

    /// The task after its timeout was looked at, at the time `now`.
    pub open spec fn check_timeout(self, now: usize) -> TaskView {
        if self.timed_out(now) {
            TaskView { timeout: 0, ..self }.notify(Notify::spec_from(NotifyEnum::TIMER))
        } else {
            self
        }
    }

    /// The reason of a page fault, with what the kernel knows added to it:
    /// that the page was mapped, and that the instruction was one of user mode.
    pub open spec fn fault_reason(self, vaddr: usize, reason: PageFaultReason, kernel_base: usize) -> PageFaultReason {
        let mapped = if self.mappings.contains_key(page_of(vaddr)) {
            reason.spec_union(PageFaultReason { bits: 0x10 })
        } else {
            reason
        };
        if self.trap_frame.sepc < kernel_base {
            mapped.spec_union(PageFaultReason { bits: 0x8 })
        } else {
            mapped
        }
    }

    /// The task after a page fault was recorded.
    pub open spec fn set_fault(self, vaddr: usize, reason: PageFaultReason, kernel_base: usize) -> TaskView {
        TaskView {
            fault: Some((vaddr, self.trap_frame.sepc, self.fault_reason(vaddr, reason, kernel_base))),
            ..self
        }
    }

    /// The number of frames that hold `size` bytes.
    pub open spec fn page_count(size: usize) -> int {
        spec_align_up(size as int, PAGE_SIZE as int) / (PAGE_SIZE as int)
    }
}

/// Whether a pool serves a request of `size` bytes: the size is not 0,
/// rounded up to pages it fits a word, and the pool hands out a run of that
/// many frames.
pub open spec fn pool_serves(pool: FramePool, size: usize) -> bool {
    0 < size <= usize::MAX - PAGE_SIZE && pool.serves(TaskView::page_count(size))
}

impl MicroKernelTask {
    /// What holds of every task, whatever the others do: its address space is
    /// well formed.
    pub open spec fn wf(&self) -> bool {
        self.page_table.wf()
    }

    /// Records a page fault of the task at the address `vaddr`, to be dealt
    /// with later. The reason is completed: `PRESENT` where the page is
    /// mapped, `USER` where the instruction lies below `kernel_base`.
    pub fn set_fault(&mut self, vaddr: usize, reason: PageFaultReason, kernel_base: usize)
        ensures
            final(self)@ == old(self)@.set_fault(vaddr, reason, kernel_base),
            final(self).wf() == old(self).wf(),
            final(self).page_table == old(self).page_table,
    {
        let sepc = self.trap_frame.sepc;
        let mut reason = reason;
        if self.page_table.lookup(vaddr / PAGE_SIZE).is_some() {
            reason = reason.union(PageFaultReason::present());
        }
        if sepc < kernel_base {
            reason = reason.union(PageFaultReason::user());
        }
        self.fault = Some((vaddr, sepc, reason));
    }

    /// The address space of the task.
    pub fn page_table(&self) -> (r: &PageTable)
        ensures
            *r == self.page_table,
    {
        &self.page_table
    }

    /// The registers of the task.
    pub fn get_trap_frame(&self) -> (r: TrapFrame)
        ensures
            r == self.trap_frame,
    {
        self.trap_frame
    }

    /// Notifies the task. Where it waits for a message of any sender, it gets
    /// the notifications at once, as a message from the kernel that also holds
    /// those that were pending, and runs again. Otherwise they are added to the
    /// pending ones.
    pub fn notify(&mut self, notification: Notify)
        ensures
            final(self)@ == old(self)@.notify(notification),
            final(self).wf() == old(self).wf(),
            final(self).page_table == old(self).page_table,
    {
        let waits = match (self.state, self.wait_for) {
            (TaskState::Blocked, Some(from)) => from == IPC_ANY,
            _ => false,
        };
        if waits {
            let pending = self.notifications.pop_all();
            self.message = Some(
                Message {
                    source: FROM_KERNEL,
                    content: MessageContent::NotifyField { notications: pending | notification },
                },
            );
            self.resume();
        } else {
            self.notifications.bitor_assign(notification);
        }
    }

    /// Looks at the timeout of the task at the time `now`, in nanoseconds:
    /// where one is armed and has passed, it is disarmed and the task is
    /// notified of the timer.
    pub fn check_timeout(&mut self, now: usize)
        ensures
            final(self)@ == old(self)@.check_timeout(now),
            final(self).wf() == old(self).wf(),
            final(self).page_table == old(self).page_table,
    {
        if self.timeout != 0 && now >= self.timeout {
            self.timeout = 0;
            self.notify(Notify::from(NotifyEnum::TIMER));
        }
    }

    /// Makes the task wait.
    pub fn block(&mut self)
        ensures
            final(self)@ == (TaskView { state: TaskState::Blocked, ..old(self)@ }),
            final(self).wf() == old(self).wf(),
            final(self).page_table == old(self).page_table,
    {
        self.state = TaskState::Blocked;
    }

    /// Lets the task run again.
    pub fn resume(&mut self)
        ensures
            final(self)@ == (TaskView { state: TaskState::Runable, ..old(self)@ }),
            final(self).wf() == old(self).wf(),
            final(self).page_table == old(self).page_table,
    {
        self.state = TaskState::Runable;
    }

    /// Maps a page of the task to a frame.
    pub fn map_page(&mut self, vpn: usize, ppn: usize)
        requires
            old(self).wf(),
            ppn <= usize::MAX / PAGE_SIZE,
        ensures
            final(self).wf(),
            final(self)@ == (TaskView { mappings: old(self)@.mappings.insert(vpn, ppn), ..old(self)@ }),
    {
        self.page_table.map_page(vpn, ppn);
    }

    /// Allocates `size` bytes of physical memory, as frames that follow one
    /// another, for the task to own, and returns the address of the first,
    /// which is aligned to the number of frames rounded up to a power of two.
    /// The frames leave the pool together with those that round their number
    /// up to a power of two. `None` where the pool has no block for such a
    /// run of frames, and where `size` is 0 or too large for the pool to
    /// serve. A request of one page at most is served whenever any frame is free.
    pub fn alloc_memory(&mut self, pool: &mut FramePool, size: usize, _flags: PMAllocFlags) -> (r: Option<usize>)
        requires
            old(pool).wf(),
        ensures
            final(pool).wf(),
            final(pool).managed() == old(pool).managed(),
            final(self).wf() == old(self).wf(),
            final(self).page_table == old(self).page_table,
            r is Some <==> pool_serves(*old(pool), size),
            0 < size <= PAGE_SIZE ==> (r is Some <==> old(pool).free() != Set::<int>::empty()),
            r matches Some(paddr) ==> final(pool).free() == old(pool).free().difference(
                frame_range(
                    paddr as int / PAGE_SIZE as int,
                    paddr as int / PAGE_SIZE as int + crate::frame::next_power_of_two(
                        TaskView::page_count(size) as nat,
                    ),
                ),
            ),
            match r {
                Some(paddr) => {
                    let n = TaskView::page_count(size);
                    let first = paddr as int / PAGE_SIZE as int;
                    &&& size > 0
                    &&& n > 0
                    &&& paddr == first * PAGE_SIZE
                    &&& first as nat % crate::frame::next_power_of_two(n as nat) == 0
                    &&& frame_range(first, first + n).subset_of(old(pool).free())
                    &&& final(pool).free().subset_of(old(pool).free())
                    &&& final(pool).free().disjoint(frame_range(first, first + n))
                    &&& final(self)@ == (TaskView {
                        pages: old(self)@.pages + Seq::new(
                            n as nat,
                            |i: int| FrameTracker((first + i) as usize),
                        ),
                        ..old(self)@
                    })
                },
                None => final(self)@ == old(self)@ && final(pool).free() == old(pool).free(),
            },
    {
        if size > usize::MAX - PAGE_SIZE {
            return None;
        }
        let count: usize = align_up(size, PAGE_SIZE) / PAGE_SIZE;
        proof {
            if 0 < size <= PAGE_SIZE {
                let up = spec_align_up(size as int, PAGE_SIZE as int);
                assert(up == 4096) by (nonlinear_arith)
                    requires
                        up == (size + 4096 - 1) / 4096 * 4096,
                        0 < size <= 4096,
                ;
            }
            if size == 0 {
                assert(spec_align_up(0, 4096) == 0) by (nonlinear_arith);
            }
        }
        let mut pages = frame_alloc(pool, count);
        if pages.len() == 0 {
            return None;
        }
        let start: usize = pages[0].0;
        proof {
            assert(frame_range(start as int, start + count).contains(start as int));
            assert(old(pool).managed().contains(start as int));
            assert(start * PAGE_SIZE + PAGE_SIZE <= usize::MAX);
            assert((start * PAGE_SIZE) as int / PAGE_SIZE as int == start) by (nonlinear_arith)
                requires
                    PAGE_SIZE == 4096,
            ;
            assert(pages@ =~= Seq::new(count as nat, |i: int| FrameTracker((start + i) as usize)));
        }
        self.pages.append(&mut pages);
        Some(start * PAGE_SIZE)
    }
}

} // verus!
