//! Message passing between tasks: a rendezvous of one sender and one
//! receiver. A call that has to wait returns at once and says so; the driver
//! of the task resumes it when the task runs again.

use vstd::prelude::*;
use crate::abi::{SysCallError, FROM_KERNEL, IPC_ANY};
use crate::flags::IPCFlags;
use crate::kernel::Kernel;
use crate::message::{Message, MessageContent};
use crate::model::{first_match, IpcStep};
use crate::notify::NotifyEnum;
use crate::preserve::{lemma_first_match, lemma_ipc_resume_wf, lemma_ipc_wf, lemma_recv_resume_wf, lemma_recv_wf, lemma_send_resume_wf, lemma_send_wf};
use crate::task::{MicroKernelTask, Pending, TaskState};

verus! {

/// Whether a list holds a value.
pub fn vec_contains(v: &Vec<usize>, x: usize) -> (r: bool)
    ensures
        r == v@.contains(x),
{
    let mut i: usize = 0;
    while i < v.len()
        invariant
            i <= v.len(),
            forall|j: int| 0 <= j < i ==> v@[j] != x,
        decreases v.len() - i,
    {
        if v[i] == x {
            return true;
        }
        i = i + 1;
    }
    false
}

/// The place of the first sender in a queue that a receive from `src` accepts.
pub fn find_sender(senders: &Vec<usize>, src: usize) -> (r: Option<usize>)
    ensures
        match r {
            Some(i) => first_match(senders@, src) == Some(i as int) && i < senders.len(),
            None => first_match(senders@, src) is None,
        },
{
    let mut i: usize = 0;
    while i < senders.len()
        invariant
            i <= senders.len(),
            forall|j: int| 0 <= j < i ==> !(src == IPC_ANY || #[trigger] senders@[j] == src),
        decreases senders.len() - i,
    {
        if src == IPC_ANY || senders[i] == src {
            proof {
                lemma_first_match(senders@, src);
                match first_match(senders@, src) {
                    Some(k) => {
                        if k < i {
                            let at_k = senders@[k];
                            assert(!(src == IPC_ANY || at_k == src));
                        }
                        if i < k {
                            assert(!(src == IPC_ANY || senders@[i as int] == src));
                        }
                    },
                    None => {
                        assert(!(src == IPC_ANY || senders@[i as int] == src));
                    },
                }
            }
            return Some(i);
        }
        i = i + 1;
    }
    proof {
        lemma_first_match(senders@, src);
        match first_match(senders@, src) {
            Some(k) => {
                let at_k = senders@[k];
                assert(!(src == IPC_ANY || at_k == src));
            },
            None => {},
        }
    }
    None
}

impl MicroKernelTask {
    /// The task `tid` sends to `dst`, and goes on to receive from the task
    /// that `then_recv` names once it has sent, where it has to wait.
    pub(crate) fn send_then(kernel: &mut Kernel, tid: usize, dst: usize, content: MessageContent, flags: IPCFlags, then_recv: Option<usize>) -> (r: IpcStep)
        requires
            old(kernel).wf(),
            old(kernel)@.can_begin(tid),
        ensures
            final(kernel).wf(),
            final(kernel)@ == old(kernel)@.send(tid, dst, content, flags, then_recv).kernel,
            r == old(kernel)@.send(tid, dst, content, flags, then_recv).step,
            r == IpcStep::Done(Ok(0)) ==> final(kernel)@.can_begin(tid),
    {
        proof {
            lemma_send_wf(kernel@, tid, dst, content, flags, then_recv);
        }
        if dst == tid || !kernel.is_live(dst) {
            return IpcStep::Done(Err(SysCallError::InvalidArg));
        }
        let d: usize = dst - 1;
        let me: usize = tid - 1;
        let ready = match (kernel.tasks[d].state, kernel.tasks[d].wait_for) {
            (TaskState::Blocked, Some(from)) => from == IPC_ANY || from == tid,
            _ => false,
        };
        if !ready {
            if flags.is_non_block() {
                return IpcStep::Done(Err(SysCallError::WouldBlock));
            }
            if vec_contains(&kernel.tasks[me].senders, dst) {
                return IpcStep::Done(Err(SysCallError::DeadLock));
            }
            kernel.tasks[d].senders.push(tid);
            kernel.tasks[me].state = TaskState::Blocked;
            kernel.tasks[me].pending = Pending::Sending {
                dst,
                content,
                from_kernel: flags.is_kernel(),
                then_recv,
            };
            proof {
                assert(kernel@.tasks =~= old(kernel)@.send(tid, dst, content, flags, then_recv).kernel.tasks);
            }
            return IpcStep::Blocked;
        }
        let source = if flags.is_kernel() {
            FROM_KERNEL
        } else {
            tid
        };
        kernel.tasks[d].message = Some(Message { source, content });
        kernel.tasks[d].state = TaskState::Runable;
        proof {
            assert(kernel@.tasks =~= old(kernel)@.send(tid, dst, content, flags, then_recv).kernel.tasks);
        }
        IpcStep::Done(Ok(0))
    }

    /// The task `tid` sends the content of `message` to the task `dst`.
    ///
    /// It fails with `InvalidArg` where `dst` is the sender itself or no task
    /// that lives. Where `dst` waits for a message of any sender or of `tid`,
    /// the message is put into its mailbox, with `tid` as its source, or the
    /// kernel where the flags say so, and `dst` runs again. Otherwise the
    /// send fails with `WouldBlock` where the flags forbid to wait, and with
    /// `DeadLock` where `dst` itself waits to send to `tid`; else the sender
    /// joins the queue of senders of `dst` and waits.
    pub fn send_message(kernel: &mut Kernel, tid: usize, dst: usize, message: &mut Message, flags: IPCFlags) -> (r: IpcStep)
        requires
            old(kernel).wf(),
            old(kernel)@.can_begin(tid),
        ensures
            final(kernel).wf(),
            final(kernel)@ == old(kernel)@.send(tid, dst, old(message).content, flags, None).kernel,
            r == old(kernel)@.send(tid, dst, old(message).content, flags, None).step,
            *final(message) == *old(message),
    {
        MicroKernelTask::send_then(kernel, tid, dst, message.content, flags, None)
    }

    /// The task `tid` receives from `src`; it does not wait where `non_block` is set.
    pub(crate) fn recv_from(kernel: &mut Kernel, tid: usize, src: usize, message: &mut Message, non_block: bool) -> (r: IpcStep)
        requires
            old(kernel).wf(),
            old(kernel)@.can_begin(tid),
        ensures
            final(kernel).wf(),
            final(kernel)@ == old(kernel)@.recv(tid, src, non_block).kernel,
            r == old(kernel)@.recv(tid, src, non_block).step,
            *final(message) == match old(kernel)@.recv(tid, src, non_block).received {
                Some(m) => m,
                None => *old(message),
            },
    {
        proof {
            lemma_recv_wf(kernel@, tid, src, non_block);
        }
        let me: usize = tid - 1;
        if src == IPC_ANY && !kernel.tasks[me].notifications.is_empty() {
            message.source = FROM_KERNEL;
            message.content = MessageContent::NotifyField {
                notications: kernel.tasks[me].notifications.pop_all(),
            };
            proof {
                assert(kernel@.tasks =~= old(kernel)@.recv(tid, src, non_block).kernel.tasks);
            }
            return IpcStep::Done(Ok(0));
        }
        if non_block {
            return IpcStep::Done(Err(SysCallError::WouldBlock));
        }
        let target = find_sender(&kernel.tasks[me].senders, src);
        match target {
            Some(at) => {
                let sender: usize = kernel.tasks[me].senders[at];
                proof {
                    assert(kernel@.task_ok(tid));
                    assert(kernel@.queued_ok(tid, kernel@.task(tid).senders[at as int]));
                }
                kernel.tasks[sender - 1].state = TaskState::Runable;
                kernel.tasks[me].senders.remove(at);
                kernel.tasks[me].wait_for = Some(sender);
            },
            None => {
                kernel.tasks[me].wait_for = Some(src);
            },
        }
        kernel.tasks[me].state = TaskState::Blocked;
        kernel.tasks[me].pending = Pending::Receiving;
        proof {
            assert(kernel@.tasks =~= old(kernel)@.recv(tid, src, non_block).kernel.tasks);
        }
        IpcStep::Blocked
    }

    /// The task `tid` receives a message of the task `src`, or of any task
    /// where `src` is `IPC_ANY`.
    ///
    /// Where it asks for any sender and notifications are pending, it gets
    /// them all at once as a message from the kernel, and none is pending any
    /// more. Otherwise the receive fails with `WouldBlock` where the flags
    /// forbid to wait. Else the first sender in the queue that `src` accepts
    /// runs again and leaves the queue, and the task waits for that sender
    /// alone; where there is none, it waits for `src`.
    pub fn recv_message(kernel: &mut Kernel, tid: usize, src: usize, message: &mut Message, flags: IPCFlags) -> (r: IpcStep)
        requires
            old(kernel).wf(),
            old(kernel)@.can_begin(tid),
        ensures
            final(kernel).wf(),
            final(kernel)@ == old(kernel)@.recv(tid, src, flags.has_non_block()).kernel,
            r == old(kernel)@.recv(tid, src, flags.has_non_block()).step,
            *final(message) == match old(kernel)@.recv(tid, src, flags.has_non_block()).received {
                Some(m) => m,
                None => *old(message),
            },
    {
        MicroKernelTask::recv_from(kernel, tid, src, message, flags.is_non_block())
    }

    /// The task `tid` passes messages: it sends the content of `message` to
    /// `dst` where the flags say so, and then receives from `src` into
    /// `message` where they say so. A call is a send to a task and a receive
    /// from the same.
    pub fn ipc(kernel: &mut Kernel, tid: usize, dst: usize, src: usize, message: &mut Message, flags: IPCFlags) -> (r: IpcStep)
        requires
            old(kernel).wf(),
            old(kernel)@.can_begin(tid),
        ensures
            final(kernel).wf(),
            final(kernel)@ == old(kernel)@.ipc(tid, dst, src, old(message).content, flags).kernel,
            r == old(kernel)@.ipc(tid, dst, src, old(message).content, flags).step,
            *final(message) == match old(kernel)@.ipc(tid, dst, src, old(message).content, flags).received {
                Some(m) => m,
                None => *old(message),
            },
    {
        proof {
            lemma_ipc_wf(kernel@, tid, dst, src, message.content, flags);
        }
        let receives = flags.is_recv();
        if flags.is_send() {
            let then_recv = if receives {
                Some(src)
            } else {
                None
            };
            let sent = MicroKernelTask::send_then(kernel, tid, dst, message.content, flags, then_recv);
            match sent {
                IpcStep::Done(Ok(_)) => {},
                _ => {
                    return sent;
                },
            }
        }
        if receives {
            return MicroKernelTask::recv_from(kernel, tid, src, message, flags.is_non_block());
        }
        IpcStep::Done(Ok(0))
    }

    /// The driver of the task `tid` looks whether the message passing that
    /// the task waits in can go on. While the task does not run, it cannot. A
    /// task that waited to send and was notified of an abort fails with
    /// `Aborted`, and so does one whose receiver is gone; any other puts its
    /// message into the mailbox of the receiver, which runs again, and goes on
    /// to receive where it was in a call. A task that waited to receive takes
    /// the message out of its mailbox; where there is none, a peer was
    /// destroyed and the receive fails with `Aborted`. A task that waits in no
    /// message passing has nothing to resume, which is no failure.
    pub fn ipc_resume(kernel: &mut Kernel, tid: usize, message: &mut Message) -> (r: IpcStep)
        requires
            old(kernel).wf(),
            old(kernel)@.live(tid),
        ensures
            final(kernel).wf(),
            final(kernel)@ == old(kernel)@.ipc_resume(tid).kernel,
            r == old(kernel)@.ipc_resume(tid).step,
            *final(message) == match old(kernel)@.ipc_resume(tid).received {
                Some(m) => m,
                None => *old(message),
            },
    {
        proof {
            lemma_ipc_resume_wf(kernel@, tid);
        }
        let me: usize = tid - 1;
        match kernel.tasks[me].state {
            TaskState::Runable => {},
            _ => {
                return IpcStep::Blocked;
            },
        }
        match kernel.tasks[me].pending {
            Pending::Idle => IpcStep::Done(Ok(0)),
            Pending::Sending { dst, content, from_kernel, then_recv } => {
                proof {
                    lemma_send_resume_wf(kernel@, tid);
                    assert(kernel@.task_ok(tid));
                }
                kernel.tasks[me].pending = Pending::Idle;
                if kernel.tasks[me].notifications.pop_specify(NotifyEnum::ABORTED).is_some() {
                    proof {
                        assert(kernel@.tasks =~= old(kernel)@.send_resume(tid).kernel.tasks);
                    }
                    return IpcStep::Done(Err(SysCallError::Aborted));
                }
                let ready = kernel.is_live(dst) && match (
                    kernel.tasks[dst - 1].state,
                    kernel.tasks[dst - 1].wait_for,
                ) {
                    (TaskState::Blocked, Some(from)) => from == tid,
                    _ => false,
                };
                if !ready {
                    proof {
                        assert(kernel@.tasks =~= old(kernel)@.send_resume(tid).kernel.tasks);
                    }
                    return IpcStep::Done(Err(SysCallError::Aborted));
                }
                let source = if from_kernel {
                    FROM_KERNEL
                } else {
                    tid
                };
                kernel.tasks[dst - 1].message = Some(Message { source, content });
                kernel.tasks[dst - 1].state = TaskState::Runable;
                proof {
                    assert(kernel@.tasks =~= old(kernel)@.send_resume(tid).kernel.tasks);
                }
                match then_recv {
                    Some(src) => MicroKernelTask::recv_from(kernel, tid, src, message, false),
                    None => IpcStep::Done(Ok(0)),
                }
            },
            Pending::Receiving => {
                proof {
                    lemma_recv_resume_wf(kernel@, tid);
                }
                kernel.tasks[me].wait_for = None;
                kernel.tasks[me].pending = Pending::Idle;
                match kernel.tasks[me].message {
                    Some(m) => {
                        kernel.tasks[me].message = None;
                        *message = m;
                        proof {
                            assert(kernel@.tasks =~= old(kernel)@.recv_resume(tid).kernel.tasks);
                        }
                        IpcStep::Done(Ok(0))
                    },
                    None => {
                        let _ = kernel.tasks[me].notifications.pop_specify(NotifyEnum::ABORTED);
                        proof {
                            assert(kernel@.tasks =~= old(kernel)@.recv_resume(tid).kernel.tasks);
                        }
                        IpcStep::Done(Err(SysCallError::Aborted))
                    },
                }
            },
        }
    }
}

} // verus!
