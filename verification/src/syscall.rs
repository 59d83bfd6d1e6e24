//! The system calls, each as a function of the kernel and of the task that
//! makes the call, and the dispatch from the number of a call to its function.

use vstd::prelude::*;
use vstd::string::StringSliceAdditionalSpecFns;
use crate::abi::{SysCallError, IPC_ANY};
use crate::flags::{IPCFlags, PMAllocFlags};
use crate::frame::{frame_range, FrameTracker, PAGE_SIZE};
use crate::kernel::Kernel;
use crate::message::Message;
use crate::model::{IpcStep, KernelView};
use crate::notify::Notify;
use crate::page_table::{page_of, PageTable};
use crate::preserve::{lemma_notify_wf, lemma_update_wf};
use crate::task::{MicroKernelTask, TaskView};

verus! {

/// The number of nanoseconds in a millisecond.
pub const NSEC_PER_MSEC: usize = 1_000_000;

/// How far a system call has come.
#[derive(Debug, Clone, Copy, PartialEq, Eq)]
pub enum SysStep {
    /// It is over, with this result.
    Done(Result<usize, SysCallError>),
    /// The task waits in a message passing, which its driver resumes.
    Blocked,
    /// The console has no byte yet: the driver lets other tasks run and makes
    /// the call again.
    Retry,
    /// The machine is to be switched off.
    Shutdown,
}

/// What the driver has read for a system call from the memory of the task,
/// and what it writes back once the call is over.
pub struct UserData {
    /// The message that the third argument of a message passing points to.
    pub message: Message,
    /// The bytes that the first argument of a call on the console, or of the
    /// creation of a task, points to.
    pub bytes: Vec<u8>,
}

/// What the driver has read for a system call from the machine.
#[derive(Debug, Clone, Copy)]
pub struct Machine {
    /// The time since boot, in nanoseconds.
    pub now: usize,
    /// The byte that the console has, if it has one.
    pub key: Option<u8>,
}

/// `core::str::from_utf8` of the standard library: the bytes as a string
/// where they are valid UTF-8, and nothing where they are not.
#[verifier::external_body]
pub(crate) fn str_from_utf8(bytes: &[u8]) -> (r: Option<&str>)
    ensures
        r is Some <==> vstd::utf8::valid_utf8(bytes@),
        r matches Some(s) ==> s.spec_bytes() == bytes@,
{
    core::str::from_utf8(bytes).ok()
}

impl KernelView {
    /// Whether the task `tid` may change the memory of the task `dst`: it is
    /// that task, or its pager.
    pub open spec fn permitted(self, tid: usize, dst: usize) -> bool {
        dst == tid || (self.live(dst) && self.task(dst).pager == Some(tid))
    }

    /// Whether `n` is the kernel after `size` bytes were allocated for the
    /// task `dst` at the physical address `paddr`: the frames follow one
    /// another from that address on, were free before and are owned by `dst`
    /// now; the first of them has a number that is a multiple of their count
    /// rounded up to a power of two; besides them only frames that were free
    /// may have left the pool.
    pub open spec fn allocated(self, n: KernelView, dst: usize, size: usize, paddr: usize) -> bool {
        let count = TaskView::page_count(size);
        let first = paddr as int / PAGE_SIZE as int;
        &&& size > 0
        &&& count > 0
        &&& paddr == first * PAGE_SIZE
        &&& first as nat % crate::frame::next_power_of_two(count as nat) == 0
        &&& frame_range(first, first + count).subset_of(self.free)
        &&& n.free.subset_of(self.free)
        &&& n.free.disjoint(frame_range(first, first + count))
        &&& n == (KernelView {
            tasks: self.tasks.update(
                dst - 1,
                TaskView {
                    pages: self.task(dst).pages + Seq::new(
                        count as nat,
                        |i: int| FrameTracker((first + i) as usize),
                    ),
                    ..self.task(dst)
                },
            ),
            free: n.free,
            ..self
        })
    }

    /// The kernel after a page of the task `dst` was mapped.
    pub open spec fn map(self, dst: usize, uaddr: usize, paddr: usize) -> KernelView {
        self.with_task(
            dst,
            TaskView {
                mappings: self.task(dst).mappings.insert(page_of(uaddr), page_of(paddr)),
                ..self.task(dst)
            },
        )
    }

    /// The kernel after a page of the task `dst` was unmapped.
    pub open spec fn unmap(self, dst: usize, uaddr: usize) -> KernelView {
        self.with_task(
            dst,
            TaskView { mappings: self.task(dst).mappings.remove(page_of(uaddr)), ..self.task(dst) },
        )
    }

    /// The kernel after the timeout of the task `tid` was armed.
    pub open spec fn arm(self, tid: usize, deadline: usize) -> KernelView {
        self.with_task(tid, TaskView { timeout: deadline, ..self.task(tid) })
    }

    /// The task that a system call names as a pager: the task with that id, if it lives.
    pub open spec fn pager_of(self, pager: usize) -> Option<usize> {
        if self.live(pager) {
            Some(pager)
        } else {
            None
        }
    }
}

/// An allocation keeps what holds of every kernel.
pub proof fn lemma_allocated_wf(k: KernelView, n: KernelView, dst: usize, size: usize, paddr: usize)
    requires
        k.wf(),
        k.has(dst),
        k.allocated(n, dst, size, paddr),
    ensures
        n.wf(),
{
    let count = TaskView::page_count(size);
    let first = paddr as int / PAGE_SIZE as int;
    let held = k.task(dst).pages.len() as int;
    assert forall|t: usize| n.has(t) implies #[trigger] n.task_ok(t) by {
        assert(k.task_ok(t));
        assert forall|i: int| 0 <= i < n.task(t).senders.len() implies n.queued_ok(
            t,
            #[trigger] n.task(t).senders[i],
        ) by {
            let y = k.task(t).senders[i];
            assert(k.queued_ok(t, y));
        }
    }
    assert forall|t: usize, i: int| n.has(t) && 0 <= i < n.task(t).pages.len() implies n.managed.contains(
        #[trigger] n.owned(t, i),
    ) && !n.free.contains(n.owned(t, i)) by {
        if t == dst && i >= held {
            assert(n.owned(t, i) == first + (i - held));
            assert(frame_range(first, first + count).contains(n.owned(t, i)));
        } else {
            assert(k.owned(t, i) == n.owned(t, i));
        }
    }
    assert forall|t1: usize, i1: int, t2: usize, i2: int|
        n.has(t1) && 0 <= i1 < n.task(t1).pages.len() && n.has(t2) && 0 <= i2 < n.task(
            t2,
        ).pages.len() && (t1 != t2 || i1 != i2) implies #[trigger] n.owned(t1, i1) != #[trigger] n.owned(
        t2,
        i2,
    ) by {
        let new1 = t1 == dst && i1 >= held;
        let new2 = t2 == dst && i2 >= held;
        if new1 {
            assert(n.owned(t1, i1) == first + (i1 - held));
            assert(frame_range(first, first + count).contains(n.owned(t1, i1)));
        } else {
            assert(k.owned(t1, i1) == n.owned(t1, i1));
        }
        if new2 {
            assert(n.owned(t2, i2) == first + (i2 - held));
            assert(frame_range(first, first + count).contains(n.owned(t2, i2)));
        } else {
            assert(k.owned(t2, i2) == n.owned(t2, i2));
        }
    }
}

impl MicroKernelTask {
    /// Writes bytes of the task to the serial console: all of them.
    pub fn sys_serial_write(bytes: &[u8]) -> (r: Result<usize, SysCallError>)
        ensures
            r == Ok::<usize, SysCallError>(bytes@.len() as usize),
    {
        Ok(bytes.len())
    }

    /// Reads one byte of the serial console into the buffer of the task.
    pub fn sys_serial_read(buf: &mut Vec<u8>, byte: u8) -> (r: Result<usize, SysCallError>)
        requires
            old(buf)@.len() > 0,
        ensures
            r == Ok::<usize, SysCallError>(1),
            final(buf)@ == old(buf)@.update(0, byte),
    {
        buf[0] = byte;
        Ok(1)
    }

    /// Ends the task `tid`: it is destroyed.
    pub fn sys_task_exit(kernel: &mut Kernel, tid: usize) -> (r: Result<usize, SysCallError>)
        requires
            old(kernel).wf(),
            old(kernel)@.has(tid),
        ensures
            final(kernel).wf(),
            final(kernel)@ == old(kernel)@.destroy(tid),
            r == Ok::<usize, SysCallError>(0),
    {
        MicroKernelTask::destroy(kernel, tid);
        Ok(0)
    }

    /// Destroys the task `target`. Fails with `InvalidTask` where no such task lives.
    pub fn sys_task_destroy(kernel: &mut Kernel, target: usize) -> (r: Result<usize, SysCallError>)
        requires
            old(kernel).wf(),
        ensures
            final(kernel).wf(),
            old(kernel)@.live(target) ==> r == Ok::<usize, SysCallError>(0) && final(kernel)@ == old(kernel)@.destroy(target),
            !old(kernel)@.live(target) ==> r == Err::<usize, SysCallError>(SysCallError::InvalidTask)
                && final(kernel)@ == old(kernel)@,
    {
        if !kernel.is_live(target) {
            return Err(SysCallError::InvalidTask);
        }
        MicroKernelTask::destroy(kernel, target);
        Ok(0)
    }

    /// Notifies the task `target`. Fails with `InvalidTask` where no such task lives.
    pub fn sys_notify(kernel: &mut Kernel, target: usize, notification: Notify) -> (r: Result<usize, SysCallError>)
        requires
            old(kernel).wf(),
        ensures
            final(kernel).wf(),
            old(kernel)@.live(target) ==> r == Ok::<usize, SysCallError>(0) && final(kernel)@ == old(kernel)@.notify(target, notification),
            !old(kernel)@.live(target) ==> r == Err::<usize, SysCallError>(SysCallError::InvalidTask)
                && final(kernel)@ == old(kernel)@,
    {
        if !kernel.is_live(target) {
            return Err(SysCallError::InvalidTask);
        }
        proof {
            lemma_notify_wf(kernel@, target, notification);
        }
        kernel.tasks[target - 1].notify(notification);
        proof {
            assert(kernel@.tasks =~= old(kernel)@.notify(target, notification).tasks);
        }
        Ok(0)
    }

    /// The task `tid` begins to listen to the interrupt line `irq`: it is
    /// notified of an interrupt whenever one occurs on the line.
    pub fn sys_irq_listen(kernel: &mut Kernel, tid: usize, irq: usize) -> (r: Result<usize, SysCallError>)
        requires
            old(kernel).wf(),
            old(kernel)@.has(tid),
        ensures
            final(kernel).wf(),
            final(kernel)@ == old(kernel)@.with_task(tid, old(kernel)@.task(tid).listen(irq)),
            r == Ok::<usize, SysCallError>(0),
    {
        proof {
            let t = kernel@.task(tid);
            assert(kernel@.task_ok(tid));
            if !t.irqs.contains(irq) {
                let s = t.irqs.push(irq);
                assert forall|a: int, b: int| 0 <= a < s.len() && 0 <= b < s.len() && a != b implies s[a]
                    != s[b] by {
                    if a == t.irqs.len() {
                        assert(t.irqs.contains(s[b]));
                    }
                    if b == t.irqs.len() {
                        assert(t.irqs.contains(s[a]));
                    }
                }
            }
            lemma_update_wf(kernel@, tid, t.listen(irq));
        }
        if !crate::ipc::vec_contains(&kernel.tasks[tid - 1].irqs, irq) {
            kernel.tasks[tid - 1].irqs.push(irq);
        }
        proof {
            assert(kernel@.tasks =~= old(kernel)@.with_task(tid, old(kernel)@.task(tid).listen(irq)).tasks);
        }
        Ok(0)
    }

    /// The task `tid` stops to listen to the interrupt line `irq`. Fails
    /// with `NotFound` where it does not listen to the line.
    pub fn sys_irq_unlisten(kernel: &mut Kernel, tid: usize, irq: usize) -> (r: Result<usize, SysCallError>)
        requires
            old(kernel).wf(),
            old(kernel)@.has(tid),
        ensures
            final(kernel).wf(),
            old(kernel)@.task(tid).irqs.contains(irq) ==> r == Ok::<usize, SysCallError>(0) && final(kernel)@ == old(kernel)@.with_task(tid, old(kernel)@.task(tid).unlisten(irq)) && !final(kernel)@.task(tid).irqs.contains(irq),
            !old(kernel)@.task(tid).irqs.contains(irq) ==> r == Err::<usize, SysCallError>(
                SysCallError::NotFound,
            ) && final(kernel)@ == old(kernel)@,
    {
        if !crate::ipc::vec_contains(&kernel.tasks[tid - 1].irqs, irq) {
            return Err(SysCallError::NotFound);
        }
        proof {
            let t = kernel@.task(tid);
            assert(kernel@.task_ok(tid));
            crate::preserve::lemma_remove_value(t.irqs, irq);
            lemma_update_wf(kernel@, tid, t.unlisten(irq));
        }
        crate::lifecycle::vec_remove_value(&mut kernel.tasks[tid - 1].irqs, irq);
        proof {
            assert(kernel@.tasks =~= old(kernel)@.with_task(
                tid,
                old(kernel)@.task(tid).unlisten(irq),
            ).tasks);
        }
        Ok(0)
    }

    /// Arms the timeout of the task `tid`: it passes `ms` milliseconds after
    /// the time `now`, which is in nanoseconds. Fails with `InvalidArg` where
    /// that time does not fit a word.
    pub fn sys_time(kernel: &mut Kernel, tid: usize, now: usize, ms: usize) -> (r: Result<usize, SysCallError>)
        requires
            old(kernel).wf(),
            old(kernel)@.has(tid),
        ensures
            final(kernel).wf(),
            now + ms * NSEC_PER_MSEC <= usize::MAX ==> r == Ok::<usize, SysCallError>(0) && final(kernel)@ == old(kernel)@.arm(tid, (now + ms * NSEC_PER_MSEC) as usize),
            now + ms * NSEC_PER_MSEC > usize::MAX ==> r == Err::<usize, SysCallError>(
                SysCallError::InvalidArg,
            ) && final(kernel)@ == old(kernel)@,
    {
        let deadline = match ms.checked_mul(NSEC_PER_MSEC) {
            Some(wait) => now.checked_add(wait),
            None => None,
        };
        match deadline {
            Some(deadline) => {
                proof {
                    let t = kernel@.task(tid);
                    assert(kernel@.task_ok(tid));
                    lemma_update_wf(kernel@, tid, TaskView { timeout: deadline, ..t });
                }
                kernel.tasks[tid - 1].timeout = deadline;
                proof {
                    assert(kernel@.tasks =~= old(kernel)@.arm(tid, deadline).tasks);
                }
                Ok(0)
            },
            None => Err(SysCallError::InvalidArg),
        }
    }

    /// The time since boot in milliseconds, at the time `now` in nanoseconds.
    pub fn sys_uptime(now: usize) -> (r: Result<usize, SysCallError>)
        ensures
            r == Ok::<usize, SysCallError>(now / NSEC_PER_MSEC),
    {
        Ok(now / NSEC_PER_MSEC)
    }

    /// The message passing that the task `tid` asks for. It fails with
    /// `InvalidArg` where the flags hold a bit that is no flag or say that
    /// the kernel sends, and where `src` names no task that lives; otherwise
    /// it is the message passing of these flags.
    pub fn sys_ipc(kernel: &mut Kernel, tid: usize, dst: usize, src: usize, message: &mut Message, flags: usize) -> (r: IpcStep)
        requires
            old(kernel).wf(),
            old(kernel)@.can_begin(tid),
        ensures
            final(kernel).wf(),
            match IPCFlags::spec_from_bits(flags) {
                Some(f) if !f.has_kernel() && (src == IPC_ANY || old(kernel)@.live(src)) => {
                    let done = old(kernel)@.ipc(tid, dst, src, old(message).content, f);
                    &&& final(kernel)@ == done.kernel
                    &&& r == done.step
                    &&& *final(message) == match done.received {
                        Some(m) => m,
                        None => *old(message),
                    }
                },
                _ => {
                    &&& final(kernel)@ == old(kernel)@
                    &&& r == IpcStep::Done(Err(SysCallError::InvalidArg))
                    &&& *final(message) == *old(message)
                },
            },
    {
        let flags = match IPCFlags::from_bits(flags) {
            Some(flags) => flags,
            None => {
                return IpcStep::Done(Err(SysCallError::InvalidArg));
            },
        };
        if flags.is_kernel() {
            return IpcStep::Done(Err(SysCallError::InvalidArg));
        }
        if src != IPC_ANY && !kernel.is_live(src) {
            return IpcStep::Done(Err(SysCallError::InvalidArg));
        }
        MicroKernelTask::ipc(kernel, tid, dst, src, message, flags)
    }

    /// Creates a task on behalf of the task `tid`. The name is given as
    /// bytes; the call fails with `InvalidArg` where they are no valid UTF-8.
    /// The pager of the new task is the task `pager` where that lives, and
    /// none otherwise.
    pub fn sys_task_create(kernel: &mut Kernel, name: &[u8], entry_point: usize, pager: usize) -> (r: Result<usize, SysCallError>)
        requires
            old(kernel).wf(),
        ensures
            final(kernel).wf(),
            !vstd::utf8::valid_utf8(name@) ==> r == Err::<usize, SysCallError>(
                SysCallError::InvalidArg,
            ) && final(kernel)@ == old(kernel)@,
            vstd::utf8::valid_utf8(name@) ==> match r {
                Ok(tid) => tid == old(kernel)@.tasks.len() + 1 && old(kernel)@.created(
                    final(kernel)@,
                    vstd::utf8::decode_utf8(name@),
                    entry_point,
                    old(kernel)@.pager_of(pager),
                    Map::empty(),
                ),
                Err(e) => final(kernel)@ == old(kernel)@ && e == if old(kernel)@.tasks.len() >= old(kernel)@.max_tasks {
                    SysCallError::TooManyTasks
                } else {
                    SysCallError::NoMemory
                },
            },
            vstd::utf8::valid_utf8(name@) ==> (r is Ok <==> old(kernel)@.can_create()),
    {
        let name = match str_from_utf8(name) {
            Some(name) => name,
            None => {
                return Err(SysCallError::InvalidArg);
            },
        };
        proof {
            vstd::utf8::encode_utf8_decode_utf8(name@);
        }
        let pager = if kernel.is_live(pager) {
            Some(pager)
        } else {
            None
        };
        MicroKernelTask::new(kernel, name, entry_point, pager)
    }

    /// Allocates `size` bytes of physical memory for the task `dst`, on
    /// behalf of the task `tid`, and returns the address of the memory.
    ///
    /// The call fails with `InvalidArg` where `flags` holds a bit that is no
    /// flag, and with `InvalidTask` where `dst` is neither the task itself nor
    /// a task that lives and has it as its pager. It fails with `NoMemory`
    /// where the pool has no block for a run of frames of that size, and
    /// where the size is 0; the kernel is then as it was. A request of one
    /// page at most is served whenever any frame is free.
    pub fn sys_pm_alloc(kernel: &mut Kernel, tid: usize, dst: usize, size: usize, flags: usize) -> (r: Result<usize, SysCallError>)
        requires
            old(kernel).wf(),
            old(kernel)@.has(tid),
        ensures
            final(kernel).wf(),
            PMAllocFlags::spec_from_bits(flags) is None ==> r == Err::<usize, SysCallError>(
                SysCallError::InvalidArg,
            ),
            PMAllocFlags::spec_from_bits(flags) is Some && !old(kernel)@.permitted(tid, dst) ==> r
                == Err::<usize, SysCallError>(SysCallError::InvalidTask),
            PMAllocFlags::spec_from_bits(flags) is Some && old(kernel)@.permitted(tid, dst) ==> (r
                is Ok <==> old(kernel).serves(size)) && (r is Err ==> r == Err::<
                usize,
                SysCallError,
            >(SysCallError::NoMemory)),
            PMAllocFlags::spec_from_bits(flags) is Some && old(kernel)@.permitted(tid, dst) && 0 < size
                <= PAGE_SIZE ==> (r is Ok <==> old(kernel)@.free != Set::<int>::empty()),
            match r {
                Ok(paddr) => old(kernel)@.allocated(final(kernel)@, dst, size, paddr),
                Err(_) => final(kernel)@ == old(kernel)@,
            },
    {
        let flags = match PMAllocFlags::from_bits(flags) {
            Some(flags) => flags.union(PMAllocFlags::zerod()),
            None => {
                return Err(SysCallError::InvalidArg);
            },
        };
        if !MicroKernelTask::may_change(kernel, tid, dst) {
            return Err(SysCallError::InvalidTask);
        }
        let found = kernel.tasks[dst - 1].alloc_memory(&mut kernel.frames, size, flags);
        match found {
            Some(paddr) => {
                proof {
                    assert(kernel@.tasks =~= old(kernel)@.tasks.update(
                        dst - 1,
                        kernel@.tasks[dst - 1],
                    ));
                    lemma_allocated_wf(old(kernel)@, kernel@, dst, size, paddr);
                }
                Ok(paddr)
            },
            None => {
                proof {
                    assert(kernel@.tasks =~= old(kernel)@.tasks);
                }
                Err(SysCallError::NoMemory)
            },
        }
    }

    /// Whether the task `tid` may change the memory of the task `dst`.
    pub fn may_change(kernel: &Kernel, tid: usize, dst: usize) -> (r: bool)
        ensures
            r == kernel@.permitted(tid, dst),
    {
        if dst == tid {
            return true;
        }
        match kernel.tid2task(dst) {
            Some(task) => match task.pager {
                Some(pager) => pager == tid,
                None => false,
            },
            None => false,
        }
    }

    /// Maps the page of the address `uaddr` of the task `dst` to the frame of
    /// the physical address `paddr`, on behalf of the task `tid`. Fails with
    /// `InvalidTask` where `dst` is neither the task itself nor a task that
    /// lives and has it as its pager.
    pub fn sys_vm_map(kernel: &mut Kernel, tid: usize, dst: usize, uaddr: usize, paddr: usize, _flags: usize) -> (r: Result<usize, SysCallError>)
        requires
            old(kernel).wf(),
            old(kernel)@.has(tid),
        ensures
            final(kernel).wf(),
            old(kernel)@.permitted(tid, dst) ==> r == Ok::<usize, SysCallError>(0) && final(kernel)@
                == old(kernel)@.map(dst, uaddr, paddr),
            !old(kernel)@.permitted(tid, dst) ==> r == Err::<usize, SysCallError>(
                SysCallError::InvalidTask,
            ) && final(kernel)@ == old(kernel)@,
    {
        if !MicroKernelTask::may_change(kernel, tid, dst) {
            return Err(SysCallError::InvalidTask);
        }
        proof {
            assert(kernel@.task_ok(dst));
            lemma_update_wf(
                kernel@,
                dst,
                TaskView {
                    mappings: kernel@.task(dst).mappings.insert(page_of(uaddr), page_of(paddr)),
                    ..kernel@.task(dst)
                },
            );
        }
        kernel.tasks[dst - 1].map_page(uaddr / PAGE_SIZE, paddr / PAGE_SIZE);
        proof {
            assert(kernel@.tasks =~= old(kernel)@.map(dst, uaddr, paddr).tasks);
        }
        Ok(0)
    }

    /// Unmaps the page of the address `uaddr` of the task `dst`, on behalf of
    /// the task `tid`. Fails with `InvalidTask` where `dst` is neither the task
    /// itself nor a task that lives and has it as its pager.
    pub fn sys_vm_unmap(kernel: &mut Kernel, tid: usize, dst: usize, uaddr: usize) -> (r: Result<usize, SysCallError>)
        requires
            old(kernel).wf(),
            old(kernel)@.has(tid),
        ensures
            final(kernel).wf(),
            old(kernel)@.permitted(tid, dst) ==> r == Ok::<usize, SysCallError>(0) && final(kernel)@
                == old(kernel)@.unmap(dst, uaddr),
            !old(kernel)@.permitted(tid, dst) ==> r == Err::<usize, SysCallError>(
                SysCallError::InvalidTask,
            ) && final(kernel)@ == old(kernel)@,
    {
        if !MicroKernelTask::may_change(kernel, tid, dst) {
            return Err(SysCallError::InvalidTask);
        }
        proof {
            assert(kernel@.task_ok(dst));
            lemma_update_wf(
                kernel@,
                dst,
                TaskView {
                    mappings: kernel@.task(dst).mappings.remove(page_of(uaddr)),
                    ..kernel@.task(dst)
                },
            );
        }
        kernel.tasks[dst - 1].page_table.unmap_page(uaddr / PAGE_SIZE);
        proof {
            assert(kernel@.tasks =~= old(kernel)@.unmap(dst, uaddr).tasks);
        }
        Ok(0)
    }

    /// The physical address that the address `uaddr` of the task `tid` is
    /// mapped to. Fails with `InvalidUaddr` where the address is not mapped.
    pub fn sys_trans_paddr(kernel: &Kernel, tid: usize, uaddr: usize) -> (r: Result<usize, SysCallError>)
        requires
            kernel.wf(),
            kernel@.has(tid),
        ensures
            r == match PageTable::spec_translate(kernel@.task(tid).mappings, uaddr) {
                Some(paddr) => Ok::<usize, SysCallError>(paddr),
                None => Err::<usize, SysCallError>(SysCallError::InvalidUaddr),
            },
    {
        match kernel.tasks[tid - 1].page_table.translate(uaddr) {
            Some(paddr) => Ok(paddr),
            None => Err(SysCallError::InvalidUaddr),
        }
    }
}

} // verus!
