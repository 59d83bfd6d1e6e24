//! Proofs that message passing keeps what holds of every kernel.

use vstd::prelude::*;
use crate::abi::IPC_ANY;
use crate::flags::IPCFlags;
use crate::message::MessageContent;
use crate::model::{aborted, aborted_bit, first_match, IpcStep, KernelView};
use crate::notify::{Notify, NotifyEnum};
use crate::task::{Pending, TaskState, TaskView};

verus! {

/// Two kernels have the same tasks but for their message passing: the same
/// number of them, with the same ids, frames and marks of destruction.
pub open spec fn same_frames(a: KernelView, b: KernelView) -> bool {
    &&& a.tasks.len() == b.tasks.len()
    &&& a.free == b.free
    &&& a.managed == b.managed
    &&& a.max_tasks == b.max_tasks
    &&& a.kernel_base == b.kernel_base
    &&& forall|t: usize| a.has(t) ==> (#[trigger] a.task(t)).pages == b.task(t).pages
}

/// What holds of the frames depends on the frames alone.
pub proof fn lemma_frames_ok(a: KernelView, b: KernelView)
    requires
        a.frames_ok(),
        same_frames(a, b),
    ensures
        b.frames_ok(),
{
    assert forall|t: usize, i: int| b.has(t) && 0 <= i < b.task(t).pages.len() implies b.managed.contains(
        #[trigger] b.owned(t, i),
    ) && !b.free.contains(b.owned(t, i)) by {
        assert(a.task(t).pages == b.task(t).pages);
        assert(a.owned(t, i) == b.owned(t, i));
    }
    assert forall|t1: usize, i1: int, t2: usize, i2: int|
        b.has(t1) && 0 <= i1 < b.task(t1).pages.len() && b.has(t2) && 0 <= i2 < b.task(
            t2,
        ).pages.len() && (t1 != t2 || i1 != i2) implies #[trigger] b.owned(t1, i1)
        != #[trigger] b.owned(t2, i2) by {
        assert(a.task(t1).pages == b.task(t1).pages);
        assert(a.task(t2).pages == b.task(t2).pages);
        assert(a.owned(t1, i1) == b.owned(t1, i1));
        assert(a.owned(t2, i2) == b.owned(t2, i2));
    }
}

/// The place that `first_match` finds holds a sender that the receive accepts.
pub proof fn lemma_first_match(senders: Seq<usize>, src: usize)
    ensures
        match first_match(senders, src) {
            Some(i) => {
                &&& 0 <= i < senders.len()
                &&& src == IPC_ANY || senders[i] == src
                &&& forall|j: int| 0 <= j < i ==> !(src == IPC_ANY || senders[j] == src)
            },
            None => forall|j: int| 0 <= j < senders.len() ==> !(src == IPC_ANY || senders[j] == src),
        },
    decreases senders.len(),
{
    if senders.len() > 0 && !(src == IPC_ANY || senders[0] == src) {
        lemma_first_match(senders.drop_first(), src);
        let rest = senders.drop_first();
        match first_match(rest, src) {
            Some(i) => {
                assert forall|j: int| 0 <= j < i + 1 implies !(src == IPC_ANY || senders[j] == src) by {
                    if j > 0 {
                        assert(senders[j] == rest[j - 1]);
                    }
                }
            },
            None => {
                assert forall|j: int| 0 <= j < senders.len() implies !(src == IPC_ANY || senders[j]
                    == src) by {
                    if j > 0 {
                        assert(senders[j] == rest[j - 1]);
                    }
                }
            },
        }
    }
}

/// A task that runs waits in no queue of senders.
pub proof fn lemma_running_not_queued(k: KernelView, tid: usize, x: usize)
    requires
        k.wf(),
        k.has(x),
        k.has(tid),
        k.task(tid).state != TaskState::Blocked || !(k.task(tid).pending is Sending),
    ensures
        !k.task(x).senders.contains(tid),
{
    assert(k.task_ok(x));
    if k.task(x).senders.contains(tid) {
        let i = choose|i: int| 0 <= i < k.task(x).senders.len() && k.task(x).senders[i] == tid;
        assert(k.queued_ok(x, k.task(x).senders[i]));
    }
}

/// A send keeps what holds of every kernel.
pub proof fn lemma_send_wf(k: KernelView, tid: usize, dst: usize, content: MessageContent, flags: IPCFlags, then_recv: Option<usize>)
    requires
        k.wf(),
        k.can_begin(tid),
    ensures
        k.send(tid, dst, content, flags, then_recv).kernel.wf(),
        same_frames(k, k.send(tid, dst, content, flags, then_recv).kernel),
        k.send(tid, dst, content, flags, then_recv).step == IpcStep::Done(Ok(0)) ==> k.send(
            tid,
            dst,
            content,
            flags,
            then_recv,
        ).kernel.can_begin(tid),
{
    let r = k.send(tid, dst, content, flags, then_recv);
    let n = r.kernel;
    assert(k.task_ok(tid));
    if dst == tid || !k.live(dst) {
    } else if k.ready(tid, dst) {
        assert(k.task_ok(dst));
        assert(k.task(dst).pending is Receiving);
        assert forall|t: usize| n.has(t) implies #[trigger] n.task_ok(t) by {
            assert(k.task_ok(t));
            assert forall|i: int| 0 <= i < n.task(t).senders.len() implies n.queued_ok(
                t,
                #[trigger] n.task(t).senders[i],
            ) by {
                let y = k.task(t).senders[i];
                assert(k.queued_ok(t, y));
                assert(y != dst);
            }
        }
        lemma_frames_ok(k, n);
    } else if flags.has_non_block() {
    } else if k.task(tid).senders.contains(dst) {
    } else {
        assert(k.task_ok(dst));
        lemma_running_not_queued(k, tid, dst);
        assert forall|t: usize| n.has(t) implies #[trigger] n.task_ok(t) by {
            assert(k.task_ok(t));
            lemma_running_not_queued(k, tid, t);
            assert forall|i: int| 0 <= i < n.task(t).senders.len() implies n.queued_ok(
                t,
                #[trigger] n.task(t).senders[i],
            ) by {
                let y = n.task(t).senders[i];
                if t == dst && i == k.task(dst).senders.len() {
                    assert(y == tid);
                } else {
                    assert(y == k.task(t).senders[i]);
                    assert(k.queued_ok(t, y));
                    assert(y != tid);
                    if y == dst {
                        assert(k.task(dst).pending == n.task(dst).pending);
                    }
                }
            }
            if t == dst {
                assert(n.task(t).senders =~= k.task(t).senders.push(tid));
                assert(n.task(t).senders.no_duplicates());
            }
        }
        lemma_frames_ok(k, n);
    }
}

/// A receive keeps what holds of every kernel.
pub proof fn lemma_recv_wf(k: KernelView, tid: usize, src: usize, non_block: bool)
    requires
        k.wf(),
        k.can_begin(tid),
    ensures
        k.recv(tid, src, non_block).kernel.wf(),
        same_frames(k, k.recv(tid, src, non_block).kernel),
{
    let r = k.recv(tid, src, non_block);
    let n = r.kernel;
    let task = k.task(tid);
    assert(k.task_ok(tid));
    if src == IPC_ANY && task.notifications@ != Set::<int>::empty() {
        assert forall|t: usize| n.has(t) implies #[trigger] n.task_ok(t) by {
            assert(k.task_ok(t));
            lemma_running_not_queued(k, tid, t);
            assert forall|i: int| 0 <= i < n.task(t).senders.len() implies n.queued_ok(
                t,
                #[trigger] n.task(t).senders[i],
            ) by {
                assert(k.queued_ok(t, k.task(t).senders[i]));
            }
        }
        lemma_frames_ok(k, n);
    } else if non_block {
    } else {
        lemma_first_match(task.senders, src);
        match first_match(task.senders, src) {
            Some(at) => {
                let sender = task.senders[at];
                assert(k.queued_ok(tid, sender));
                assert(k.task_ok(sender));
                assert forall|t: usize| n.has(t) implies #[trigger] n.task_ok(t) by {
                    assert(k.task_ok(t));
                    lemma_running_not_queued(k, tid, t);
                    assert forall|i: int| 0 <= i < n.task(t).senders.len() implies n.queued_ok(
                        t,
                        #[trigger] n.task(t).senders[i],
                    ) by {
                        let y = n.task(t).senders[i];
                        if t == tid {
                            let j = if i < at {
                                i
                            } else {
                                i + 1
                            };
                            assert(y == task.senders[j]);
                            assert(k.queued_ok(t, task.senders[j]));
                            assert(y != sender);
                        } else {
                            assert(y == k.task(t).senders[i]);
                            assert(k.queued_ok(t, y));
                            assert(y != sender);
                        }
                    }
                    if t == tid {
                        task.senders.remove_ensures(at);
                        assert(n.task(t).senders.no_duplicates()) by {
                            let s = task.senders.remove(at);
                            assert forall|a: int, b: int| 0 <= a < s.len() && 0 <= b < s.len() && a
                                != b implies s[a] != s[b] by {
                                let a2 = if a < at {
                                    a
                                } else {
                                    a + 1
                                };
                                let b2 = if b < at {
                                    b
                                } else {
                                    b + 1
                                };
                                assert(s[a] == task.senders[a2]);
                                assert(s[b] == task.senders[b2]);
                            }
                        }
                    }
                }
                lemma_frames_ok(k, n);
            },
            None => {
                assert forall|t: usize| n.has(t) implies #[trigger] n.task_ok(t) by {
                    assert(k.task_ok(t));
                    lemma_running_not_queued(k, tid, t);
                    assert forall|i: int| 0 <= i < n.task(t).senders.len() implies n.queued_ok(
                        t,
                        #[trigger] n.task(t).senders[i],
                    ) by {
                        assert(k.queued_ok(t, k.task(t).senders[i]));
                    }
                }
                lemma_frames_ok(k, n);
            },
        }
    }
}

/// A change of one task that leaves its queue of senders, and whether it
/// waits to send, as they are keeps what holds of the queues of all tasks.
pub proof fn lemma_update_wf(k: KernelView, tid: usize, t: TaskView)
    requires
        k.wf(),
        k.has(tid),
        t.tid == tid,
        t.senders == k.task(tid).senders,
        t.irqs.no_duplicates(),
        t.pages == k.task(tid).pages,
        t.destroyed == k.task(tid).destroyed,
        !t.destroyed ==> KernelView::ipc_ok(t),
        forall|x: usize|
            k.has(x) && (#[trigger] k.task(x)).senders.contains(tid) ==> t.state == k.task(tid).state
                && t.pending == k.task(tid).pending,
    ensures
        k.with_task(tid, t).wf(),
        same_frames(k, k.with_task(tid, t)),
{
    let n = k.with_task(tid, t);
    assert forall|x: usize| n.has(x) implies #[trigger] n.task_ok(x) by {
        assert(k.task_ok(x));
        assert forall|i: int| 0 <= i < n.task(x).senders.len() implies n.queued_ok(
            x,
            #[trigger] n.task(x).senders[i],
        ) by {
            assert(n.task(x).senders == k.task(x).senders);
            let y = k.task(x).senders[i];
            assert(k.queued_ok(x, y));
            if y == tid {
                assert(k.task(x).senders.contains(tid));
                assert(n.task(y) == t);
            } else {
                assert(n.task(y) == k.task(y));
            }
        }
    }
    lemma_frames_ok(k, n);
}

/// The resumption of a send keeps what holds of every kernel.
pub proof fn lemma_send_resume_wf(k: KernelView, tid: usize)
    requires
        k.wf(),
        k.live(tid),
        k.task(tid).state == TaskState::Runable,
        k.task(tid).pending is Sending,
    ensures
        k.send_resume(tid).kernel.wf(),
        same_frames(k, k.send_resume(tid).kernel),
        k.send_resume(tid).kernel.can_begin(tid),
        k.send_resume(tid).step is Done,
{
    let r = k.send_resume(tid);
    let t = k.task(tid);
    let dst = t.pending->dst;
    assert(k.task_ok(tid));
    assert forall|x: usize| k.has(x) implies !k.task(x).senders.contains(tid) by {
        lemma_running_not_queued(k, tid, x);
    }
    if t.notifications@.contains(aborted_bit()) {
        let t2 = TaskView {
            pending: Pending::Idle,
            notifications: t.notifications.spec_without(aborted_bit()),
            ..t
        };
        lemma_update_wf(k, tid, t2);
    } else {
        let t2 = TaskView { pending: Pending::Idle, ..t };
        lemma_update_wf(k, tid, t2);
        let idle = k.with_task(tid, t2);
        if k.live(dst) && k.task(dst).state == TaskState::Blocked && k.task(dst).wait_for == Some(tid) {
            assert(k.task_ok(dst));
            assert(idle.task_ok(dst));
            assert(idle.task(dst) == k.task(dst));
            let d2 = TaskView {
                message: Some(
                    crate::model::sent_message(tid, t.pending->content, t.pending->from_kernel),
                ),
                state: TaskState::Runable,
                ..idle.task(dst)
            };
            assert forall|x: usize| idle.has(x) implies !idle.task(x).senders.contains(dst) by {
                lemma_running_not_queued(idle, dst, x);
            }
            lemma_update_wf(idle, dst, d2);
        }
    }
}

/// The resumption of a receive keeps what holds of every kernel.
pub proof fn lemma_recv_resume_wf(k: KernelView, tid: usize)
    requires
        k.wf(),
        k.live(tid),
        k.task(tid).state == TaskState::Runable,
        k.task(tid).pending is Receiving,
    ensures
        k.recv_resume(tid).kernel.wf(),
        same_frames(k, k.recv_resume(tid).kernel),
        k.recv_resume(tid).kernel.can_begin(tid),
        k.recv_resume(tid).step is Done,
        k.task(tid).message is None ==> k.task(tid).notifications@.contains(aborted_bit()),
{
    let t = k.task(tid);
    assert(k.task_ok(tid));
    assert forall|x: usize| k.has(x) implies !k.task(x).senders.contains(tid) by {
        lemma_running_not_queued(k, tid, x);
    }
    match t.message {
        Some(m) => {
            lemma_update_wf(
                k,
                tid,
                TaskView { message: None, wait_for: None, pending: Pending::Idle, ..t },
            );
        },
        None => {
            lemma_update_wf(
                k,
                tid,
                TaskView {
                    wait_for: None,
                    pending: Pending::Idle,
                    notifications: t.notifications.spec_without(aborted_bit()),
                    ..t
                },
            );
        },
    }
}

/// A message passing keeps what holds of every kernel.
pub proof fn lemma_ipc_wf(k: KernelView, tid: usize, dst: usize, src: usize, content: MessageContent, flags: IPCFlags)
    requires
        k.wf(),
        k.can_begin(tid),
    ensures
        k.ipc(tid, dst, src, content, flags).kernel.wf(),
        same_frames(k, k.ipc(tid, dst, src, content, flags).kernel),
{
    if flags.has_send() {
        let then_recv = KernelView::recv_from(src, flags);
        lemma_send_wf(k, tid, dst, content, flags, then_recv);
        let sent = k.send(tid, dst, content, flags, then_recv);
        if then_recv is Some && sent.step == IpcStep::Done(Ok(0)) {
            lemma_recv_wf(sent.kernel, tid, src, flags.has_non_block());
            lemma_same_frames_trans(
                k,
                sent.kernel,
                sent.kernel.recv(tid, src, flags.has_non_block()).kernel,
            );
        }
    } else if flags.has_recv() {
        lemma_recv_wf(k, tid, src, flags.has_non_block());
    } else {
        lemma_same_frames_trans(k, k, k);
    }
}

/// Having the same frames carries over from one pair of kernels to the next.
pub proof fn lemma_same_frames_trans(a: KernelView, b: KernelView, c: KernelView)
    requires
        same_frames(a, b) || a == b,
        same_frames(b, c) || b == c,
    ensures
        same_frames(a, c),
{
    assert forall|t: usize| a.has(t) implies (#[trigger] a.task(t)).pages == c.task(t).pages by {
        assert(a.task(t).pages == b.task(t).pages);
        assert(b.has(t));
        assert(b.task(t).pages == c.task(t).pages);
    }
}

/// The resumption of a message passing keeps what holds of every kernel.
pub proof fn lemma_ipc_resume_wf(k: KernelView, tid: usize)
    requires
        k.wf(),
        k.live(tid),
    ensures
        k.ipc_resume(tid).kernel.wf(),
        same_frames(k, k.ipc_resume(tid).kernel),
{
    let t = k.task(tid);
    if t.state != TaskState::Runable {
        lemma_same_frames_trans(k, k, k);
    } else {
        match t.pending {
            Pending::Idle => {
                lemma_same_frames_trans(k, k, k);
            },
            Pending::Sending { dst, content, from_kernel, then_recv } => {
                lemma_send_resume_wf(k, tid);
                let sent = k.send_resume(tid);
                match then_recv {
                    Some(src) => {
                        if sent.step == IpcStep::Done(Ok(0)) {
                            lemma_recv_wf(sent.kernel, tid, src, false);
                            lemma_same_frames_trans(
                                k,
                                sent.kernel,
                                sent.kernel.recv(tid, src, false).kernel,
                            );
                        }
                    },
                    None => {},
                }
            },
            Pending::Receiving => {
                lemma_recv_resume_wf(k, tid);
            },
        }
    }
}

/// A notification keeps what holds of every kernel.
pub proof fn lemma_notify_wf(k: KernelView, tid: usize, n: Notify)
    requires
        k.wf(),
        k.has(tid),
    ensures
        k.notify(tid, n).wf(),
        same_frames(k, k.notify(tid, n)),
{
    let t = k.task(tid);
    assert(k.task_ok(tid));
    t.notifications.lemma_bitor_view(n);
    if t.waits_for_any() {
        assert forall|x: usize| k.has(x) implies !k.task(x).senders.contains(tid) by {
            if k.task(x).senders.contains(tid) {
                assert(k.task_ok(x));
                let i = choose|i: int| 0 <= i < k.task(x).senders.len() && k.task(x).senders[i] == tid;
                assert(k.queued_ok(x, k.task(x).senders[i]));
            }
        }
    }
    lemma_update_wf(k, tid, t.notify(n));
}

/// The check of a timeout keeps what holds of every kernel.
pub proof fn lemma_check_timeout_wf(k: KernelView, tid: usize, now: usize)
    requires
        k.wf(),
        k.has(tid),
    ensures
        k.with_task(tid, k.task(tid).check_timeout(now)).wf(),
        same_frames(k, k.with_task(tid, k.task(tid).check_timeout(now))),
{
    let t = k.task(tid);
    assert(k.task_ok(tid));
    if t.timed_out(now) {
        let t1 = TaskView { timeout: 0, ..t };
        lemma_update_wf(k, tid, t1);
        let k1 = k.with_task(tid, t1);
        lemma_notify_wf(k1, tid, Notify::spec_from(NotifyEnum::TIMER));
        assert(k1.notify(tid, Notify::spec_from(NotifyEnum::TIMER)).tasks =~= k.with_task(
            tid,
            t.check_timeout(now),
        ).tasks);
        lemma_same_frames_trans(k, k1, k1.notify(tid, Notify::spec_from(NotifyEnum::TIMER)));
    } else {
        assert(k.with_task(tid, t).tasks =~= k.tasks);
        lemma_same_frames_trans(k, k, k);
    }
}

/// A sequence without one of its values holds what it held before, but for that value.
pub proof fn lemma_remove_value(s: Seq<usize>, v: usize)
    requires
        s.no_duplicates(),
    ensures
        s.remove_value(v).no_duplicates(),
        !s.remove_value(v).contains(v),
        forall|x: usize| x != v ==> s.remove_value(v).contains(x) == s.contains(x),
        forall|i: int| 0 <= i < s.remove_value(v).len() ==> s.contains(#[trigger] s.remove_value(v)[i]),
{
    let r = s.remove_value(v);
    if s.contains(v) {
        let at = s.index_of_first(v);
        s.index_of_first_ensures(v);
        let at = at->0;
        assert(r == s.remove(at));
        s.remove_ensures(at);
        assert forall|a: int, b: int| 0 <= a < r.len() && 0 <= b < r.len() && a != b implies r[a]
            != r[b] by {
            let a2 = if a < at {
                a
            } else {
                a + 1
            };
            let b2 = if b < at {
                b
            } else {
                b + 1
            };
            assert(r[a] == s[a2]);
            assert(r[b] == s[b2]);
        }
        assert forall|i: int| 0 <= i < r.len() implies s.contains(#[trigger] r[i]) && r[i] != v by {
            let i2 = if i < at {
                i
            } else {
                i + 1
            };
            assert(r[i] == s[i2]);
        }
        assert forall|x: usize| x != v && s.contains(x) implies r.contains(x) by {
            let j = choose|j: int| 0 <= j < s.len() && s[j] == x;
            let j2 = if j < at {
                j
            } else {
                j - 1
            };
            assert(r[j2] == x);
        }
    } else {
        s.index_of_first_ensures(v);
    }
}

/// The destruction of a task keeps what holds of every kernel.
pub proof fn lemma_destroy_wf(k: KernelView, t: usize)
    requires
        k.wf(),
        k.has(t),
    ensures
        k.destroy(t).wf(),
        same_frames(k, k.destroy(t)),
{
    let n = k.destroy(t);
    assert(k.task_ok(t));
    assert forall|x: usize| n.has(x) implies #[trigger] n.task_ok(x) by {
        assert(k.task_ok(x));
        assert(n.task(x) == k.after_destroy(t, x));
        if x != t {
            let old_task = k.task(x);
            lemma_remove_value(old_task.senders, t);
            old_task.notifications.lemma_bitor_view(aborted());
            Notify::lemma_from_view(NotifyEnum::ABORTED);
            assert forall|i: int| 0 <= i < n.task(x).senders.len() implies n.queued_ok(
                x,
                #[trigger] n.task(x).senders[i],
            ) by {
                let y = n.task(x).senders[i];
                assert(old_task.senders.contains(y));
                let j = choose|j: int| 0 <= j < old_task.senders.len() && old_task.senders[j] == y;
                assert(k.queued_ok(x, old_task.senders[j]));
                assert(y != t);
                assert(k.task_ok(y));
                assert(n.task(y) == k.after_destroy(t, y));
                if k.task(t).senders.contains(y) {
                    let m = choose|m: int| 0 <= m < k.task(t).senders.len() && k.task(t).senders[m] == y;
                    assert(k.queued_ok(t, k.task(t).senders[m]));
                }
                assert(!k.aborts(t, y));
            }
            if k.aborts(t, x) && k.task(t).senders.contains(x) {
                let m = choose|m: int| 0 <= m < k.task(t).senders.len() && k.task(t).senders[m] == x;
                assert(k.queued_ok(t, k.task(t).senders[m]));
            }
            if old_task.destroyed {
                assert(old_task.senders.remove_value(t) =~= old_task.senders) by {
                    old_task.senders.index_of_first_ensures(t);
                }
            } else {
                assert(KernelView::ipc_ok(n.task(x)));
            }
            assert(n.task(x).senders.no_duplicates());
            assert(n.task(x).tid == x);
        } else {
            assert(n.task(x).senders.len() == 0);
            assert(n.task(x).destroyed);
        }
    }
    lemma_frames_ok(k, n);
}

} // verus!
