//! What holds of message passing in every kernel, whatever the tasks do.
//!
//! The life of a kernel is a sequence of events, each of which is one of the
//! steps that the executable kernel takes. A message passing with both flags
//! is a send followed by a receive, its resumption is the resumption of the
//! send followed by a receive or the resumption of the receive, a tick of
//! the timer is a notification of every task whose timeout has passed, and
//! an interrupt is a notification of every task that listens to its line.

use vstd::prelude::*;
use crate::abi::{SysCallError, FROM_KERNEL, IPC_ANY};
use crate::create::{fresh_frames, lemma_create_wf};
use crate::consts::USER_STACK_PAGES;
use crate::flags::IPCFlags;
use crate::frame::FrameTracker;
use crate::message::{Message, MessageContent};
use crate::model::{aborted, aborted_bit, first_match, sent_message, IpcStep, KernelView};
use crate::notify::{Notify, NotifyEnum};
use crate::page_table::PageTable;
use crate::preserve::{lemma_destroy_wf, lemma_notify_wf, lemma_recv_resume_wf, lemma_recv_wf, lemma_send_resume_wf, lemma_send_wf};
use crate::task::{notify_message, Pending, TaskState};

verus! {

/// One step of the kernel.
pub enum Event {
    /// A task begins to send.
    Send { tid: usize, dst: usize, content: MessageContent, flags: IPCFlags, then_recv: Option<usize> },
    /// A task begins to receive.
    Recv { tid: usize, src: usize, non_block: bool },
    /// A task that waited to send goes on.
    SendResume { tid: usize },
    /// A task that waited to receive goes on.
    RecvResume { tid: usize },
    /// A task is notified.
    Notify { tid: usize, n: Notify },
    /// A task is destroyed.
    Destroy { tid: usize },
    /// A task is created.
    Create {
        name: Seq<char>,
        entry: usize,
        pager: Option<usize>,
        base: Map<usize, usize>,
        pages: Seq<FrameTracker>,
    },
    /// Anything that leaves the message passing of every task as it is: a
    /// change of mappings, frames, registers, timeouts or page faults.
    Quiet { after: KernelView },
}

/// Whether two kernels agree in the message passing of every task.
pub open spec fn same_ipc(a: KernelView, b: KernelView) -> bool {
    &&& a.tasks.len() == b.tasks.len()
    &&& forall|t: usize|
        a.has(t) ==> {
            let x = #[trigger] a.task(t);
            let y = b.task(t);
            &&& x.message == y.message
            &&& x.state == y.state
            &&& x.wait_for == y.wait_for
            &&& x.senders == y.senders
            &&& x.pending == y.pending
            &&& x.notifications == y.notifications
            &&& x.destroyed == y.destroyed
        }
}

impl KernelView {
    /// Whether an event can occur.
    pub open spec fn enabled(self, e: Event) -> bool {
        match e {
            Event::Send { tid, dst, content, flags, then_recv } => self.can_begin(tid),
            Event::Recv { tid, src, non_block } => self.can_begin(tid),
            Event::SendResume { tid } => self.live(tid) && self.task(tid).state == TaskState::Runable
                && self.task(tid).pending is Sending,
            Event::RecvResume { tid } => self.live(tid) && self.task(tid).state == TaskState::Runable
                && self.task(tid).pending is Receiving,
            Event::Notify { tid, n } => self.live(tid),
            Event::Destroy { tid } => self.has(tid),
            Event::Create { name, entry, pager, base, pages } => self.tasks.len() < self.max_tasks
                && pages.len() == USER_STACK_PAGES && fresh_frames(
                self.free,
                pages,
                USER_STACK_PAGES as int,
            ),
            Event::Quiet { after } => after.wf() && same_ipc(self, after),
        }
    }

    /// The kernel after an event.
    pub open spec fn next(self, e: Event) -> KernelView {
        match e {
            Event::Send { tid, dst, content, flags, then_recv } => self.send(
                tid,
                dst,
                content,
                flags,
                then_recv,
            ).kernel,
            Event::Recv { tid, src, non_block } => self.recv(tid, src, non_block).kernel,
            Event::SendResume { tid } => self.send_resume(tid).kernel,
            Event::RecvResume { tid } => self.recv_resume(tid).kernel,
            Event::Notify { tid, n } => self.notify(tid, n),
            Event::Destroy { tid } => self.destroy(tid),
            Event::Create { name, entry, pager, base, pages } => self.create(
                name,
                entry,
                pager,
                base,
                pages,
            ),
            Event::Quiet { after } => after,
        }
    }

    /// What the mailbox of the task `r` holds: one message or none.
    pub open spec fn mailbox(self, r: usize) -> Seq<Message> {
        match self.task(r).message {
            Some(m) => seq![m],
            None => Seq::empty(),
        }
    }

    /// The message that an event puts into the mailbox of the task `r`, if it puts one.
    pub open spec fn written(self, e: Event, r: usize) -> Seq<Message> {
        match e {
            Event::Send { tid, dst, content, flags, then_recv } => if dst == r && dst != tid
                && self.live(dst) && self.ready(tid, dst) {
                seq![sent_message(tid, content, flags.has_kernel())]
            } else {
                Seq::empty()
            },
            Event::SendResume { tid } => {
                let t = self.task(tid);
                let dst = t.pending->dst;
                if dst == r && !t.notifications@.contains(aborted_bit()) && self.live(dst) && self.task(
                    dst,
                ).state == TaskState::Blocked && self.task(dst).wait_for == Some(tid) {
                    seq![sent_message(tid, t.pending->content, t.pending->from_kernel)]
                } else {
                    Seq::empty()
                }
            },
            Event::Notify { tid, n } => if tid == r && self.task(r).waits_for_any() {
                seq![notify_message(self.task(r).notifications.spec_bitor(n))]
            } else {
                Seq::empty()
            },
            _ => Seq::empty(),
        }
    }

    /// The message that an event hands to the task `r` out of its mailbox, if
    /// it hands one.
    pub open spec fn received(self, e: Event, r: usize) -> Seq<Message> {
        match e {
            Event::RecvResume { tid } => if tid == r {
                self.mailbox(r)
            } else {
                Seq::empty()
            },
            _ => Seq::empty(),
        }
    }

    /// Whether the events can occur one after another.
    pub open spec fn valid(self, es: Seq<Event>) -> bool
        decreases es.len(),
    {
        es.len() > 0 ==> self.enabled(es[0]) && self.next(es[0]).valid(es.drop_first())
    }

    /// The kernel after the events.
    pub open spec fn run(self, es: Seq<Event>) -> KernelView
        decreases es.len(),
    {
        if es.len() == 0 {
            self
        } else {
            self.next(es[0]).run(es.drop_first())
        }
    }

    /// The messages that the events put into the mailbox of the task `r`, in
    /// the order in which they were put there.
    pub open spec fn writes(self, es: Seq<Event>, r: usize) -> Seq<Message>
        decreases es.len(),
    {
        if es.len() == 0 {
            Seq::empty()
        } else {
            self.written(es[0], r) + self.next(es[0]).writes(es.drop_first(), r)
        }
    }

    /// The messages that the events hand to the task `r` out of its mailbox,
    /// in the order in which it took them.
    pub open spec fn takes(self, es: Seq<Event>, r: usize) -> Seq<Message>
        decreases es.len(),
    {
        if es.len() == 0 {
            Seq::empty()
        } else {
            self.received(es[0], r) + self.next(es[0]).takes(es.drop_first(), r)
        }
    }
}

impl KernelView {
    /// The message that the task `s` waits to send to the task `r`, if it
    /// waits to send one.
    pub open spec fn in_flight(self, s: usize, r: usize) -> Seq<Message> {
        match self.task(s).pending {
            Pending::Sending { dst, content, from_kernel, then_recv } if dst == r => seq![
                sent_message(s, content, from_kernel),
            ],
            _ => Seq::empty(),
        }
    }

    /// The message that the task `s` begins to send to the task `r` with an
    /// event, if the event is such a send and is not refused.
    pub open spec fn issued(self, e: Event, s: usize, r: usize) -> Seq<Message> {
        match e {
            Event::Send { tid, dst, content, flags, then_recv } if tid == s && dst == r && !(self.send(
                tid,
                dst,
                content,
                flags,
                then_recv,
            ).step is Done && self.send(tid, dst, content, flags, then_recv).step != IpcStep::Done(
                Ok(0),
            )) => seq![sent_message(s, content, flags.has_kernel())],
            _ => Seq::empty(),
        }
    }

    /// The message of the task `s` that an event of `s` puts into the mailbox
    /// of the task `r`, if it puts one.
    pub open spec fn arrived(self, e: Event, s: usize, r: usize) -> Seq<Message> {
        match e {
            Event::Send { tid, .. } if tid == s => self.written(e, r),
            Event::SendResume { tid } if tid == s => self.written(e, r),
            _ => Seq::empty(),
        }
    }

    /// The message that the task `s` waited to send to the task `r` and that
    /// an event gives up, because a peer was destroyed.
    pub open spec fn dropped(self, e: Event, s: usize, r: usize) -> Seq<Message> {
        match e {
            Event::SendResume { tid } if tid == s && self.written(e, r).len() == 0 => self.in_flight(
                s,
                r,
            ),
            _ => Seq::empty(),
        }
    }

    /// The messages that the task `s` begins to send to the task `r` in the
    /// course of the events, in the order in which it begins.
    pub open spec fn issues(self, es: Seq<Event>, s: usize, r: usize) -> Seq<Message>
        decreases es.len(),
    {
        if es.len() == 0 {
            Seq::empty()
        } else {
            self.issued(es[0], s, r) + self.next(es[0]).issues(es.drop_first(), s, r)
        }
    }

    /// The messages of the task `s` for the task `r` that reach the mailbox
    /// of `r` or are given up in the course of the events, in the order in
    /// which that happens.
    pub open spec fn outcomes(self, es: Seq<Event>, s: usize, r: usize) -> Seq<Message>
        decreases es.len(),
    {
        if es.len() == 0 {
            Seq::empty()
        } else {
            self.arrived(es[0], s, r) + self.dropped(es[0], s, r) + self.next(es[0]).outcomes(
                es.drop_first(),
                s,
                r,
            )
        }
    }
}

/// A task has one send under way at most: the message that it waits to
/// send, followed by the one that it begins to send, is the one that reaches
/// the receiver or is given up, followed by the one that it waits to send
/// after the event.
pub proof fn lemma_step_send(k: KernelView, e: Event, s: usize, r: usize)
    requires
        k.wf(),
        k.has(s),
        k.has(r),
        k.enabled(e),
    ensures
        k.next(e).has(s),
        k.in_flight(s, r) + k.issued(e, s, r) == k.arrived(e, s, r) + k.dropped(e, s, r) + k.next(
            e,
        ).in_flight(s, r),
{
    lemma_next_wf(k, e);
    let n = k.next(e);
    assert(k.task_ok(s));
    assert(k.task_ok(r));
    let lhs = k.in_flight(s, r) + k.issued(e, s, r);
    let rhs = k.arrived(e, s, r) + k.dropped(e, s, r) + n.in_flight(s, r);
    match e {
        Event::Send { tid, dst, content, flags, then_recv } => {
            assert(k.task_ok(tid));
            if dst != tid && k.live(dst) {
                assert(k.task_ok(dst));
            }
            assert(lhs =~= rhs);
        },
        Event::Recv { tid, src, non_block } => {
            assert(k.task_ok(tid));
            crate::preserve::lemma_first_match(k.task(tid).senders, src);
            if s != tid {
                assert(n.task(s).pending == k.task(s).pending) by {
                    match first_match(k.task(tid).senders, src) {
                        Some(at) => {
                            assert(k.queued_ok(tid, k.task(tid).senders[at]));
                        },
                        None => {},
                    }
                }
            }
            assert(lhs =~= rhs);
        },
        Event::SendResume { tid } => {
            assert(k.task_ok(tid));
            let dst = k.task(tid).pending->dst;
            if k.live(dst) {
                assert(k.task_ok(dst));
            }
            assert(lhs =~= rhs);
        },
        Event::RecvResume { tid } => {
            assert(k.task_ok(tid));
            assert(lhs =~= rhs);
        },
        Event::Notify { tid, n: bits } => {
            assert(n.task(s).pending == k.task(s).pending);
            assert(lhs =~= rhs);
        },
        Event::Destroy { tid } => {
            assert(n.task(s) == k.after_destroy(tid, s));
            assert(lhs =~= rhs);
        },
        Event::Create { name, entry, pager, base, pages } => {
            assert(n.task(s) == k.task(s));
            assert(lhs =~= rhs);
        },
        Event::Quiet { after } => {
            assert(k.task(s).pending == after.task(s).pending);
            assert(lhs =~= rhs);
        },
    }
}

/// What a task `s` sends to a task `r` reaches the mailbox of `r`, or is
/// given up, in the order in which `s` began to send it: the message that `s`
/// waited to send at first, followed by those that it began to send, are the
/// messages that arrived or were given up, followed by the one that it still
/// waits to send. Together with the mailbox being a queue, this is the order
/// of delivery: first sent, first received.
pub proof fn lemma_sends_arrive_in_order(k: KernelView, es: Seq<Event>, s: usize, r: usize)
    requires
        k.wf(),
        k.has(s),
        k.has(r),
        k.valid(es),
    ensures
        k.in_flight(s, r) + k.issues(es, s, r) == k.outcomes(es, s, r) + k.run(es).in_flight(s, r),
    decreases es.len(),
{
    if es.len() == 0 {
        assert(k.in_flight(s, r) + k.issues(es, s, r) =~= k.outcomes(es, s, r) + k.run(es).in_flight(
            s,
            r,
        ));
    } else {
        let e = es[0];
        let n = k.next(e);
        let rest = es.drop_first();
        lemma_next_wf(k, e);
        lemma_step_send(k, e, s, r);
        lemma_sends_arrive_in_order(n, rest, s, r);
        let f0 = k.in_flight(s, r);
        let f1 = n.in_flight(s, r);
        let i0 = k.issued(e, s, r);
        let o0 = k.arrived(e, s, r) + k.dropped(e, s, r);
        let is = n.issues(rest, s, r);
        let os = n.outcomes(rest, s, r);
        let end = k.run(es).in_flight(s, r);
        assert(f0 + (i0 + is) =~= (f0 + i0) + is);
        assert((o0 + f1) + is =~= o0 + (f1 + is));
        assert(o0 + (os + end) =~= (o0 + os) + end);
    }
}

/// The messages of a sequence that come from the task `s`.
pub open spec fn from_source(messages: Seq<Message>, s: usize) -> Seq<Message> {
    messages.filter(|m: Message| m.source == s)
}

/// Every event keeps what holds of every kernel.
pub proof fn lemma_next_wf(k: KernelView, e: Event)
    requires
        k.wf(),
        k.enabled(e),
    ensures
        k.next(e).wf(),
        k.next(e).tasks.len() >= k.tasks.len(),
{
    match e {
        Event::Send { tid, dst, content, flags, then_recv } => {
            lemma_send_wf(k, tid, dst, content, flags, then_recv);
        },
        Event::Recv { tid, src, non_block } => {
            lemma_recv_wf(k, tid, src, non_block);
        },
        Event::SendResume { tid } => {
            lemma_send_resume_wf(k, tid);
        },
        Event::RecvResume { tid } => {
            lemma_recv_resume_wf(k, tid);
        },
        Event::Notify { tid, n } => {
            lemma_notify_wf(k, tid, n);
        },
        Event::Destroy { tid } => {
            lemma_destroy_wf(k, tid);
        },
        Event::Create { name, entry, pager, base, pages } => {
            lemma_create_wf(k, name, entry, pager, base, pages);
        },
        Event::Quiet { after } => {},
    }
}

/// A mailbox changes in two ways only: a message is put into it while it is
/// empty, or the task that it belongs to takes the message out.
pub proof fn lemma_step_mailbox(k: KernelView, e: Event, r: usize)
    requires
        k.wf(),
        k.has(r),
        k.enabled(e),
    ensures
        k.next(e).has(r),
        k.mailbox(r) + k.written(e, r) == k.received(e, r) + k.next(e).mailbox(r),
        k.task(r).message is Some ==> k.written(e, r).len() == 0,
        k.received(e, r).len() == 0 ==> k.task(r).message is None || k.next(e).task(r).message
            == k.task(r).message,
{
    lemma_next_wf(k, e);
    let n = k.next(e);
    assert(k.task_ok(r));
    match e {
        Event::Send { tid, dst, content, flags, then_recv } => {
            assert(k.task_ok(tid));
            if dst != tid && k.live(dst) {
                assert(k.task_ok(dst));
            }
            assert(k.mailbox(r) + k.written(e, r) =~= k.received(e, r) + n.mailbox(r));
        },
        Event::Recv { tid, src, non_block } => {
            assert(k.task_ok(tid));
            crate::preserve::lemma_first_match(k.task(tid).senders, src);
            assert(n.task(r).message == k.task(r).message);
            assert(k.mailbox(r) + k.written(e, r) =~= k.received(e, r) + n.mailbox(r));
        },
        Event::SendResume { tid } => {
            assert(k.task_ok(tid));
            let dst = k.task(tid).pending->dst;
            if k.live(dst) {
                assert(k.task_ok(dst));
            }
            assert(k.mailbox(r) + k.written(e, r) =~= k.received(e, r) + n.mailbox(r));
        },
        Event::RecvResume { tid } => {
            assert(k.task_ok(tid));
            assert(k.mailbox(r) + k.written(e, r) =~= k.received(e, r) + n.mailbox(r));
        },
        Event::Notify { tid, n: bits } => {
            assert(k.task_ok(tid));
            assert(k.mailbox(r) + k.written(e, r) =~= k.received(e, r) + n.mailbox(r));
        },
        Event::Destroy { tid } => {
            assert(n.task(r) == k.after_destroy(tid, r));
            assert(n.task(r).message == k.task(r).message);
            assert(k.mailbox(r) + k.written(e, r) =~= k.received(e, r) + n.mailbox(r));
        },
        Event::Create { name, entry, pager, base, pages } => {
            assert(n.task(r) == k.task(r));
            assert(k.mailbox(r) + k.written(e, r) =~= k.received(e, r) + n.mailbox(r));
        },
        Event::Quiet { after } => {
            assert(k.task(r).message == after.task(r).message);
            assert(k.mailbox(r) + k.written(e, r) =~= k.received(e, r) + n.mailbox(r));
        },
    }
}

/// The mailbox of a task is a queue of one place: the messages that the task
/// takes out of it, followed by the one that it still holds, are the one that
/// it held at first followed by the messages that were put into it, in the
/// same order. No message is lost, none is handed out twice, and none
/// overtakes another.
pub proof fn lemma_mailbox_is_a_queue(k: KernelView, es: Seq<Event>, r: usize)
    requires
        k.wf(),
        k.has(r),
        k.valid(es),
    ensures
        k.run(es).wf(),
        k.run(es).has(r),
        k.mailbox(r) + k.writes(es, r) == k.takes(es, r) + k.run(es).mailbox(r),
    decreases es.len(),
{
    if es.len() == 0 {
        assert(k.mailbox(r) + k.writes(es, r) =~= k.takes(es, r) + k.run(es).mailbox(r));
    } else {
        let e = es[0];
        let n = k.next(e);
        let rest = es.drop_first();
        lemma_next_wf(k, e);
        lemma_step_mailbox(k, e, r);
        lemma_mailbox_is_a_queue(n, rest, r);
        let m0 = k.mailbox(r);
        let m1 = n.mailbox(r);
        let w0 = k.written(e, r);
        let t0 = k.received(e, r);
        let ws = n.writes(rest, r);
        let ts = n.takes(rest, r);
        let end = k.run(es).mailbox(r);
        assert(m0 + (w0 + ws) =~= (m0 + w0) + ws);
        assert((t0 + m1) + ws =~= t0 + (m1 + ws));
        assert(t0 + (ts + end) =~= (t0 + ts) + end);
    }
}

/// The messages that a task `r` takes from a task `s` are, in this order,
/// the first of the messages of `s` that were put into the mailbox of `r`:
/// what `s` sends to `r` arrives in the order in which it was sent. A task
/// has one send under way at most, so the order in which its messages reach
/// the mailbox is the order in which it began to send them.
pub proof fn lemma_fifo(k: KernelView, es: Seq<Event>, s: usize, r: usize)
    requires
        k.wf(),
        k.has(r),
        k.valid(es),
    ensures
        from_source(k.takes(es, r), s).is_prefix_of(from_source(k.mailbox(r) + k.writes(es, r), s)),
{
    lemma_mailbox_is_a_queue(k, es, r);
    let pred = |m: Message| m.source == s;
    let takes = k.takes(es, r);
    let end = k.run(es).mailbox(r);
    Seq::filter_distributes_over_add(takes, end, pred);
    let a = takes.filter(pred);
    let b = end.filter(pred);
    assert((a + b).subrange(0, a.len() as int) =~= a);
}

/// A message is put into the mailbox of a task only while the task waits
/// for one: it is blocked, and it waits for any sender or for the very task
/// that sends. What the kernel itself puts there, the notifications, reaches
/// only a task that waits for any sender.
pub proof fn lemma_written_only_when_waited_for(k: KernelView, e: Event, r: usize)
    requires
        k.wf(),
        k.has(r),
        k.enabled(e),
        k.written(e, r).len() > 0,
    ensures
        k.task(r).state == TaskState::Blocked,
        k.task(r).message is None,
        match e {
            Event::Send { tid, .. } => k.task(r).wait_for == Some(IPC_ANY) || k.task(r).wait_for
                == Some(tid),
            Event::SendResume { tid } => k.task(r).wait_for == Some(tid),
            _ => k.task(r).wait_for == Some(IPC_ANY),
        },
{
    lemma_step_mailbox(k, e, r);
}

/// No frame is owned twice, and no frame that a task owns is free: the
/// frames of every task are its own alone.
pub proof fn lemma_frames_are_exclusive(k: KernelView, t1: usize, i1: int, t2: usize, i2: int)
    requires
        k.wf(),
        k.has(t1),
        k.has(t2),
        0 <= i1 < k.task(t1).pages.len(),
        0 <= i2 < k.task(t2).pages.len(),
        t1 != t2 || i1 != i2,
    ensures
        k.task(t1).pages[i1] != k.task(t2).pages[i2],
        !k.free.contains(k.task(t1).pages[i1].0 as int),
        k.managed.contains(k.task(t1).pages[i1].0 as int),
{
    assert(k.owned(t1, i1) != k.owned(t2, i2));
    assert(k.managed.contains(k.owned(t1, i1)));
}

/// The message that a task waits to send is kept as it is, and so is its
/// receiver, until the task itself goes on: what reaches the mailbox of the
/// receiver then is what the task began to send.
pub proof fn lemma_waiting_send_is_kept(k: KernelView, e: Event, s: usize)
    requires
        k.wf(),
        k.live(s),
        k.enabled(e),
        k.task(s).pending is Sending,
        e != (Event::SendResume { tid: s }),
    ensures
        k.next(e).has(s),
        k.next(e).task(s).pending == k.task(s).pending,
        k.written(Event::SendResume { tid: s }, k.task(s).pending->dst).len() > 0 ==> k.written(
            Event::SendResume { tid: s },
            k.task(s).pending->dst,
        ) == seq![
            sent_message(s, k.task(s).pending->content, k.task(s).pending->from_kernel),
        ],
{
    lemma_next_wf(k, e);
    let n = k.next(e);
    assert(k.task_ok(s));
    match e {
        Event::Send { tid, dst, content, flags, then_recv } => {
            assert(k.task_ok(tid));
        },
        Event::Recv { tid, src, non_block } => {
            assert(k.task_ok(tid));
            crate::preserve::lemma_first_match(k.task(tid).senders, src);
        },
        Event::SendResume { tid } => {
            assert(k.task_ok(tid));
            let dst = k.task(tid).pending->dst;
            if k.live(dst) {
                assert(k.task_ok(dst));
            }
        },
        Event::RecvResume { tid } => {},
        Event::Notify { tid, n: bits } => {},
        Event::Destroy { tid } => {
            assert(n.task(s) == k.after_destroy(tid, s));
        },
        Event::Create { name, entry, pager, base, pages } => {
            assert(n.task(s) == k.task(s));
        },
        Event::Quiet { after } => {
            assert(k.task(s).pending == after.task(s).pending);
        },
    }
}

/// The mailbox of a task holds one message at most at any time, and a
/// message that it holds stays there, unchanged, until the task itself takes
/// it out: no event puts a message into a mailbox that holds one.
pub proof fn lemma_one_message_pending(k: KernelView, e: Event, r: usize, m: Message)
    requires
        k.wf(),
        k.has(r),
        k.enabled(e),
        k.task(r).message == Some(m),
    ensures
        k.mailbox(r).len() == 1,
        k.next(e).mailbox(r).len() <= 1,
        k.written(e, r).len() == 0,
        e == (Event::RecvResume { tid: r }) ==> k.received(e, r) == seq![m] && k.next(e).task(
            r,
        ).message is None,
        e != (Event::RecvResume { tid: r }) ==> k.next(e).task(r).message == Some(m),
{
    lemma_step_mailbox(k, e, r);
    match e {
        Event::RecvResume { tid } => {
            if tid == r {
            }
        },
        _ => {},
    }
}

/// A task in a queue of senders waits for nobody: it was not destroyed, it
/// waits to send to the owner of the queue, and it does not wait to receive.
pub proof fn lemma_queued_sender_waits_for_nobody(k: KernelView, x: usize, t: usize)
    requires
        k.wf(),
        k.has(x),
        k.task(x).senders.contains(t),
    ensures
        k.live(t),
        t != x,
        k.task(t).wait_for is None,
        k.task(t).state == TaskState::Blocked,
        k.task(t).pending matches Pending::Sending { dst, .. } && dst == x,
{
    assert(k.task_ok(x));
    let i = choose|i: int| 0 <= i < k.task(x).senders.len() && k.task(x).senders[i] == t;
    assert(k.queued_ok(x, k.task(x).senders[i]));
    assert(k.task_ok(t));
}

/// A task waits in one queue of senders at most, once, and never in its own.
pub proof fn lemma_one_queue_at_most(k: KernelView, x: usize, y: usize, t: usize)
    requires
        k.wf(),
        k.has(x),
        k.has(y),
        k.task(x).senders.contains(t),
        k.task(y).senders.contains(t),
    ensures
        x == y,
        t != x,
        k.task(x).senders.no_duplicates(),
{
    lemma_queued_sender_waits_for_nobody(k, x, t);
    lemma_queued_sender_waits_for_nobody(k, y, t);
    assert(k.task_ok(x));
}

/// A receive from any sender that brings the pending notifications leaves
/// none pending: the message holds all that were pending, and it comes from
/// the kernel.
pub proof fn lemma_receive_drains(k: KernelView, tid: usize, non_block: bool)
    requires
        k.wf(),
        k.can_begin(tid),
        k.task(tid).notifications@ != Set::<int>::empty(),
    ensures
        k.recv(tid, IPC_ANY, non_block).step == IpcStep::Done(Ok(0)),
        k.recv(tid, IPC_ANY, non_block).received == Some(notify_message(k.task(tid).notifications)),
        notify_message(k.task(tid).notifications).source == FROM_KERNEL,
        k.recv(tid, IPC_ANY, non_block).kernel.task(tid).notifications@ == Set::<int>::empty(),
{
    Notify::lemma_new_view();
}

/// A notification that reaches a task which waits for any sender is handed
/// over at once, together with all that were pending, and leaves none
/// pending; the task then takes exactly that message, and taking it leaves
/// the pending notifications as they are.
pub proof fn lemma_notify_drains(k: KernelView, tid: usize, n: Notify)
    requires
        k.wf(),
        k.live(tid),
        k.task(tid).waits_for_any(),
    ensures
        k.notify(tid, n).task(tid).notifications@ == Set::<int>::empty(),
        k.notify(tid, n).task(tid).message == Some(notify_message(k.task(tid).notifications.spec_bitor(n))),
        notify_message(k.task(tid).notifications.spec_bitor(n)).content->notications@ == k.task(
            tid,
        ).notifications@.union(n@),
        k.notify(tid, n).ipc_resume(tid).step == IpcStep::Done(Ok(0)),
        k.notify(tid, n).ipc_resume(tid).received == k.notify(tid, n).task(tid).message,
        k.notify(tid, n).ipc_resume(tid).kernel.task(tid).notifications@ == Set::<int>::empty(),
{
    Notify::lemma_new_view();
    k.task(tid).notifications.lemma_bitor_view(n);
    assert(k.task_ok(tid));
}

/// The destruction of a task `t` aborts every peer `x` that is blocked on
/// it, be it that `x` waits in the queue of senders of `t` or that it waits
/// for a message of `t`: `x` runs again, and the message passing that it
/// waited in fails with `Aborted` as soon as its driver resumes it.
pub proof fn lemma_destroy_aborts_peers(k: KernelView, t: usize, x: usize)
    requires
        k.wf(),
        k.has(t),
        k.live(x),
        x != t,
        k.task(t).senders.contains(x) || (k.task(x).state == TaskState::Blocked && k.task(x).wait_for
            == Some(t)),
    ensures
        k.destroy(t).live(x),
        k.destroy(t).task(x).state == TaskState::Runable,
        k.destroy(t).task(x).notifications@.contains(aborted_bit()),
        k.destroy(t).ipc_resume(x).step == IpcStep::Done(Err(SysCallError::Aborted)),
        k.destroy(t).ipc_resume(x).received is None,
        !k.destroy(t).live(t),
        k.destroy(t).task(t).senders.len() == 0,
{
    let n = k.destroy(t);
    assert(k.task_ok(x));
    assert(k.task_ok(t));
    assert(n.task(x) == k.after_destroy(t, x));
    assert(n.task(t) == k.after_destroy(t, t));
    assert(k.aborts(t, x));
    k.task(x).notifications.lemma_bitor_view(aborted());
    Notify::lemma_from_view(NotifyEnum::ABORTED);
    if k.task(t).senders.contains(x) {
        lemma_queued_sender_waits_for_nobody(k, t, x);
    }
}

/// A page fault that the pager has served lets the task go on. Where the
/// pager of the task `a` has mapped the page of the address `u` and has
/// replied, the page fault of `a` is cleared, `a` lives, and `u` is mapped in
/// its address space, so that the access that faulted goes through when `a`
/// runs it again.
pub proof fn lemma_pager_reply_resumes(k: KernelView, p: usize, a: usize, u: usize, paddr: usize)
    requires
        k.wf(),
        k.live(a),
        k.permitted(p, a),
    ensures
        k.map(a, u, paddr).clear_fault(a).task(a).fault is None,
        k.map(a, u, paddr).clear_fault(a).live(a),
        PageTable::spec_translate(k.map(a, u, paddr).clear_fault(a).task(a).mappings, u) is Some,
        k.map(a, u, paddr).clear_fault(a).task(a).state == k.task(a).state,
{
}

/// A reply of the pager that is not the reply to a page fault, or a call to
/// the pager that failed, ends the task.
pub proof fn lemma_bad_pager_reply_ends_task(k: KernelView, a: usize, result: Result<usize, SysCallError>, reply: Message)
    requires
        k.wf(),
        k.has(a),
        !KernelView::pager_replied(result, reply),
    ensures
        !(result is Ok && reply.content is PageFaultReply),
        k.destroy(a).task(a).destroyed,
        !k.destroy(a).live(a),
{
    assert(k.destroy(a).task(a) == k.after_destroy(a, a));
}

} // verus!
