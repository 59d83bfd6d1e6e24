//! The kernel as a mathematical value, and message passing as functions from
//! one such value to the next. The executable kernel does what these
//! functions say; what holds of every kernel is proved of them.

use vstd::prelude::*;
use crate::abi::{SysCallError, FROM_KERNEL, IPC_ANY};
use crate::flags::IPCFlags;
use crate::frame::PAGE_SIZE;
use crate::message::{Message, MessageContent};
use crate::notify::{Notify, NotifyEnum};
use crate::task::{notify_message, Pending, TaskState, TaskView};

verus! {

/// How far a message passing has come.
#[derive(Debug, Clone, Copy, PartialEq, Eq)]
pub enum IpcStep {
    /// It is over, with this result.
    Done(Result<usize, SysCallError>),
    /// The task waits. Once it runs again, the message passing is resumed.
    Blocked,
}

/// The kernel as a mathematical value.
pub struct KernelView {
    /// The tasks that were ever created; the task with the id `t` is at `t - 1`.
    pub tasks: Seq<TaskView>,
    /// The frames that are free.
    pub free: Set<int>,
    /// The frames that the kernel manages, free or not.
    pub managed: Set<int>,
    /// The number of tasks that can be created.
    pub max_tasks: usize,
    /// The address at which the kernel's own part of every address space begins.
    pub kernel_base: usize,
}

/// The bit of the notification that a peer was destroyed.
pub open spec fn aborted_bit() -> int {
    NotifyEnum::ABORTED.index()
}

/// The set of notifications that holds only that a peer was destroyed.
pub open spec fn aborted() -> Notify {
    Notify::spec_from(NotifyEnum::ABORTED)
}

/// The place of the first sender in a queue that a receive from `src` accepts.
pub open spec fn first_match(senders: Seq<usize>, src: usize) -> Option<int>
    decreases senders.len(),
{
    if senders.len() == 0 {
        None
    } else if src == IPC_ANY || senders[0] == src {
        Some(0)
    } else {
        match first_match(senders.drop_first(), src) {
            Some(i) => Some(i + 1),
            None => None,
        }
    }
}

/// The message that a task sends: it comes from the task, or from the kernel
/// where the kernel sends on behalf of the task.
pub open spec fn sent_message(tid: usize, content: MessageContent, from_kernel: bool) -> Message {
    Message { source: if from_kernel { FROM_KERNEL } else { tid }, content }
}

/// What a message passing leaves behind: the kernel, how far it came, and
/// the message that was received, if one was.
pub struct IpcResult {
    pub kernel: KernelView,
    pub step: IpcStep,
    pub received: Option<Message>,
}

impl KernelView {
    /// Whether a task with this id was ever created.
    pub open spec fn has(self, tid: usize) -> bool {
        1 <= tid <= self.tasks.len()
    }

    /// The task with this id.
    pub open spec fn task(self, tid: usize) -> TaskView {
        self.tasks[tid - 1]
    }

    /// Whether the task with this id exists and was not destroyed.
    pub open spec fn live(self, tid: usize) -> bool {
        self.has(tid) && !self.task(tid).destroyed
    }

    /// The kernel with one task replaced.
    pub open spec fn with_task(self, tid: usize, t: TaskView) -> KernelView {
        KernelView { tasks: self.tasks.update(tid - 1, t), ..self }
    }

    /// Whether the task `dst` is ready to take a message of the task `tid`:
    /// it waits, and it waits for any sender or for this one.
    pub open spec fn ready(self, tid: usize, dst: usize) -> bool {
        let d = self.task(dst);
        d.state == TaskState::Blocked && (d.wait_for == Some(IPC_ANY) || d.wait_for == Some(tid))
    }

    /// The kernel after a message was put into the mailbox of `dst`, which
    /// runs again.
    pub open spec fn deliver(self, dst: usize, m: Message) -> KernelView {
        self.with_task(
            dst,
            TaskView { message: Some(m), state: TaskState::Runable, ..self.task(dst) },
        )
    }

    /// A task may begin a message passing: it exists, was not destroyed, runs
    /// and is in the middle of no other.
    pub open spec fn can_begin(self, tid: usize) -> bool {
        &&& self.live(tid)
        &&& self.task(tid).state == TaskState::Runable
        &&& self.task(tid).pending is Idle
    }

    /// The task `tid` sends to `dst`. Where it has to wait and `then_recv`
    /// names a task, it goes on to receive from that task once it has sent.
    pub open spec fn send(self, tid: usize, dst: usize, content: MessageContent, flags: IPCFlags, then_recv: Option<usize>) -> IpcResult {
        if dst == tid || !self.live(dst) {
            IpcResult { kernel: self, step: IpcStep::Done(Err(SysCallError::InvalidArg)), received: None }
        } else if self.ready(tid, dst) {
            IpcResult {
                kernel: self.deliver(dst, sent_message(tid, content, flags.has_kernel())),
                step: IpcStep::Done(Ok(0)),
                received: None,
            }
        } else if flags.has_non_block() {
            IpcResult { kernel: self, step: IpcStep::Done(Err(SysCallError::WouldBlock)), received: None }
        } else if self.task(tid).senders.contains(dst) {
            IpcResult { kernel: self, step: IpcStep::Done(Err(SysCallError::DeadLock)), received: None }
        } else {
            let queued = self.with_task(
                dst,
                TaskView { senders: self.task(dst).senders.push(tid), ..self.task(dst) },
            );
            IpcResult {
                kernel: queued.with_task(
                    tid,
                    TaskView {
                        state: TaskState::Blocked,
                        pending: Pending::Sending {
                            dst,
                            content,
                            from_kernel: flags.has_kernel(),
                            then_recv,
                        },
                        ..queued.task(tid)
                    },
                ),
                step: IpcStep::Blocked,
                received: None,
            }
        }
    }

    /// The task `tid`, which waited to send, runs again.
    pub open spec fn send_resume(self, tid: usize) -> IpcResult
        recommends
            self.task(tid).pending is Sending,
    {
        let t = self.task(tid);
        let dst = t.pending->dst;
        if t.notifications@.contains(aborted_bit()) {
            IpcResult {
                kernel: self.with_task(
                    tid,
                    TaskView {
                        pending: Pending::Idle,
                        notifications: t.notifications.spec_without(aborted_bit()),
                        ..t
                    },
                ),
                step: IpcStep::Done(Err(SysCallError::Aborted)),
                received: None,
            }
        } else {
            let idle = self.with_task(tid, TaskView { pending: Pending::Idle, ..t });
            if self.live(dst) && self.task(dst).state == TaskState::Blocked && self.task(dst).wait_for
                == Some(tid) {
                IpcResult {
                    kernel: idle.deliver(
                        dst,
                        sent_message(tid, t.pending->content, t.pending->from_kernel),
                    ),
                    step: IpcStep::Done(Ok(0)),
                    received: None,
                }
            } else {
                IpcResult { kernel: idle, step: IpcStep::Done(Err(SysCallError::Aborted)), received: None }
            }
        }
    }

    /// The task `tid` receives from `src`; it does not wait where `non_block` is set.
    pub open spec fn recv(self, tid: usize, src: usize, non_block: bool) -> IpcResult {
        let t = self.task(tid);
        if src == IPC_ANY && t.notifications@ != Set::<int>::empty() {
            IpcResult {
                kernel: self.with_task(tid, TaskView { notifications: Notify::spec_new(), ..t }),
                step: IpcStep::Done(Ok(0)),
                received: Some(notify_message(t.notifications)),
            }
        } else if non_block {
            IpcResult { kernel: self, step: IpcStep::Done(Err(SysCallError::WouldBlock)), received: None }
        } else {
            match first_match(t.senders, src) {
                Some(i) => {
                    let sender = t.senders[i];
                    let woken = self.with_task(
                        sender,
                        TaskView { state: TaskState::Runable, ..self.task(sender) },
                    );
                    IpcResult {
                        kernel: woken.with_task(
                            tid,
                            TaskView {
                                senders: t.senders.remove(i),
                                wait_for: Some(sender),
                                state: TaskState::Blocked,
                                pending: Pending::Receiving,
                                ..woken.task(tid)
                            },
                        ),
                        step: IpcStep::Blocked,
                        received: None,
                    }
                },
                None => IpcResult {
                    kernel: self.with_task(
                        tid,
                        TaskView {
                            wait_for: Some(src),
                            state: TaskState::Blocked,
                            pending: Pending::Receiving,
                            ..t
                        },
                    ),
                    step: IpcStep::Blocked,
                    received: None,
                },
            }
        }
    }

    /// The task `tid`, which waited for a message, runs again.
    pub open spec fn recv_resume(self, tid: usize) -> IpcResult {
        let t = self.task(tid);
        match t.message {
            Some(m) => IpcResult {
                kernel: self.with_task(
                    tid,
                    TaskView { message: None, wait_for: None, pending: Pending::Idle, ..t },
                ),
                step: IpcStep::Done(Ok(0)),
                received: Some(m),
            },
            None => IpcResult {
                kernel: self.with_task(
                    tid,
                    TaskView {
                        wait_for: None,
                        pending: Pending::Idle,
                        notifications: t.notifications.spec_without(aborted_bit()),
                        ..t
                    },
                ),
                step: IpcStep::Done(Err(SysCallError::Aborted)),
                received: None,
            },
        }
    }

    /// What follows a send that is over: the receive from the task that
    /// `then_recv` names, where it names one and the send went well.
    pub open spec fn after_send(sent: IpcResult, tid: usize, then_recv: Option<usize>, non_block: bool) -> IpcResult {
        match then_recv {
            Some(src) if sent.step == IpcStep::Done(Ok(0)) => sent.kernel.recv(tid, src, non_block),
            _ => sent,
        }
    }

    /// The task that a message passing with these flags receives from, if it receives.
    pub open spec fn recv_from(src: usize, flags: IPCFlags) -> Option<usize> {
        if flags.has_recv() {
            Some(src)
        } else {
            None
        }
    }

    /// The task `tid` passes messages: it sends to `dst` where the flags say
    /// so, and then receives from `src` where they say so.
    pub open spec fn ipc(self, tid: usize, dst: usize, src: usize, content: MessageContent, flags: IPCFlags) -> IpcResult {
        if flags.has_send() {
            KernelView::after_send(
                self.send(tid, dst, content, flags, KernelView::recv_from(src, flags)),
                tid,
                KernelView::recv_from(src, flags),
                flags.has_non_block(),
            )
        } else if flags.has_recv() {
            self.recv(tid, src, flags.has_non_block())
        } else {
            IpcResult { kernel: self, step: IpcStep::Done(Ok(0)), received: None }
        }
    }

    /// The driver of the task `tid` looks whether the message passing that
    /// the task waits in can go on, and lets it.
    pub open spec fn ipc_resume(self, tid: usize) -> IpcResult {
        let t = self.task(tid);
        if t.state != TaskState::Runable {
            IpcResult { kernel: self, step: IpcStep::Blocked, received: None }
        } else {
            match t.pending {
                Pending::Idle => IpcResult { kernel: self, step: IpcStep::Done(Ok(0)), received: None },
                Pending::Sending { dst, content, from_kernel, then_recv } => KernelView::after_send(
                    self.send_resume(tid),
                    tid,
                    then_recv,
                    false,
                ),
                Pending::Receiving => self.recv_resume(tid),
            }
        }
    }

    /// Whether the destruction of `t` wakes the task `x`: `x` waits to send to
    /// `t`, or waits for a message of `t`.
    pub open spec fn aborts(self, t: usize, x: usize) -> bool {
        let task = self.task(x);
        x != t && !task.destroyed && (self.task(t).senders.contains(x) || (task.state
            == TaskState::Blocked && task.wait_for == Some(t)))
    }

    /// The task `x` after the task `t` was destroyed.
    pub open spec fn after_destroy(self, t: usize, x: usize) -> TaskView {
        let task = self.task(x);
        if x == t {
            TaskView { destroyed: true, senders: Seq::empty(), ..task }
        } else {
            let woken = if self.aborts(t, x) {
                TaskView {
                    notifications: task.notifications.spec_bitor(aborted()),
                    state: TaskState::Runable,
                    ..task
                }
            } else {
                task
            };
            TaskView { senders: woken.senders.remove_value(t), ..woken }
        }
    }

    /// The task `t` is destroyed: every task that waits to send to it or to
    /// receive from it is notified of the abort and runs again, and `t` leaves
    /// the queue of senders that it may wait in.
    pub open spec fn destroy(self, t: usize) -> KernelView {
        KernelView {
            tasks: Seq::new(self.tasks.len(), |i: int| self.after_destroy(t, (i + 1) as usize)),
            ..self
        }
    }

    /// The task `tid` is notified.
    pub open spec fn notify(self, tid: usize, n: Notify) -> KernelView {
        self.with_task(tid, self.task(tid).notify(n))
    }

    /// What holds of the message passing of one task that was not destroyed.
    pub open spec fn ipc_ok(t: TaskView) -> bool {
        match t.pending {
            Pending::Idle => t.state == TaskState::Runable && t.wait_for is None && t.message is None,
            Pending::Sending { dst, content, from_kernel, then_recv } => {
                &&& t.wait_for is None
                &&& t.message is None
                &&& dst != t.tid
                &&& t.state != TaskState::UnUsed
            },
            Pending::Receiving => {
                &&& t.wait_for is Some
                &&& t.state != TaskState::UnUsed
                &&& t.state == TaskState::Blocked ==> t.message is None
                &&& t.state == TaskState::Runable ==> t.message is Some || t.notifications@.contains(
                    aborted_bit(),
                )
            },
        }
    }

    /// What holds of a task `x` in the queue of senders of `t`: it was not
    /// destroyed, and it waits to send to `t`.
    pub open spec fn queued_ok(self, t: usize, x: usize) -> bool {
        &&& self.live(x)
        &&& x != t
        &&& self.task(x).state == TaskState::Blocked
        &&& self.task(x).pending matches Pending::Sending { dst, .. } && dst == t
    }

    /// What holds of one task.
    pub open spec fn task_ok(self, t: usize) -> bool {
        let task = self.task(t);
        &&& task.tid == t
        &&& task.irqs.no_duplicates()
        &&& task.senders.no_duplicates()
        &&& forall|i: int| 0 <= i < task.senders.len() ==> self.queued_ok(t, #[trigger] task.senders[i])
        &&& task.destroyed ==> task.senders.len() == 0
        &&& !task.destroyed ==> KernelView::ipc_ok(task)
    }

    /// The frame that the task `t` owns at the place `i` of its list.
    pub open spec fn owned(self, t: usize, i: int) -> int {
        self.task(t).pages[i].0 as int
    }

    /// What holds of the frames: a free frame is one that the kernel manages;
    /// the address of every managed frame fits a word; a frame that a task
    /// owns is managed and not free; and no frame is owned twice.
    pub open spec fn frames_ok(self) -> bool {
        &&& self.managed.finite()
        &&& self.free.subset_of(self.managed)
        &&& forall|f: int| self.managed.contains(f) ==> 0 <= f && f * PAGE_SIZE + PAGE_SIZE <= usize::MAX
        &&& forall|t: usize, i: int|
            self.has(t) && 0 <= i < self.task(t).pages.len() ==> self.managed.contains(
                #[trigger] self.owned(t, i),
            ) && !self.free.contains(self.owned(t, i))
        &&& forall|t1: usize, i1: int, t2: usize, i2: int|
            self.has(t1) && 0 <= i1 < self.task(t1).pages.len() && self.has(t2) && 0 <= i2
                < self.task(t2).pages.len() && (t1 != t2 || i1 != i2) ==> #[trigger] self.owned(
                t1,
                i1,
            ) != #[trigger] self.owned(t2, i2)
    }

    /// What holds of every kernel.
    pub open spec fn wf(self) -> bool {
        &&& self.tasks.len() <= self.max_tasks < usize::MAX
        &&& forall|t: usize| self.has(t) ==> #[trigger] self.task_ok(t)
        &&& self.frames_ok()
    }
}

} // verus!
