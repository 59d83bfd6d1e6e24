//! The end of a task, and the timer that looks at the timeouts of all tasks.

use vstd::prelude::*;
use crate::ipc::vec_contains;
use crate::kernel::Kernel;
use crate::model::KernelView;
use crate::notify::{Notify, NotifyEnum};
use crate::preserve::{lemma_check_timeout_wf, lemma_destroy_wf, lemma_notify_wf};
use crate::task::{MicroKernelTask, TaskState};

verus! {

/// Takes the first occurrence of a value out of a list, if there is one.
pub fn vec_remove_value(v: &mut Vec<usize>, x: usize)
    ensures
        final(v)@ == old(v)@.remove_value(x),
{
    proof {
        v@.index_of_first_ensures(x);
    }
    let mut i: usize = 0;
    while i < v.len()
        invariant
            i <= v.len(),
            *v == *old(v),
            forall|j: int| 0 <= j < i ==> v@[j] != x,
        decreases v.len() - i,
    {
        if v[i] == x {
            proof {
                v@.index_of_first_ensures(x);
                assert(v@.contains(x));
                let first = v@.index_of_first(x)->0;
                if first < i {
                    assert(v@[first] != x);
                }
            }
            v.remove(i);
            return ;
        }
        i = i + 1;
    }
    proof {
        v@.index_of_first_ensures(x);
        if v@.contains(x) {
            let j = choose|j: int| 0 <= j < v@.len() && v@[j] == x;
            assert(v@[j] != x);
        }
    }
}

impl KernelView {
    /// The task at the place `i` after the timer has looked at its timeout at
    /// the time `now`. A task that was destroyed is left as it is.
    pub open spec fn ticked(self, i: int, now: usize) -> crate::task::TaskView {
        if self.tasks[i].destroyed {
            self.tasks[i]
        } else {
            self.tasks[i].check_timeout(now)
        }
    }

    /// The kernel after the timer has looked at the timeouts of the first `n` tasks.
    pub open spec fn tick_upto(self, n: int, now: usize) -> KernelView {
        KernelView {
            tasks: Seq::new(
                self.tasks.len(),
                |i: int|
                    if i < n {
                        self.ticked(i, now)
                    } else {
                        self.tasks[i]
                    },
            ),
            ..self
        }
    }

    /// The kernel after the interrupt `irq` has reached the first `n` tasks.
    pub open spec fn irq_upto(self, n: int, irq: usize) -> KernelView {
        KernelView {
            tasks: Seq::new(
                self.tasks.len(),
                |i: int|
                    if i < n {
                        self.tasks[i].interrupted(irq)
                    } else {
                        self.tasks[i]
                    },
            ),
            ..self
        }
    }

    /// The kernel after the interrupt `irq` has occurred: every task that
    /// lives and listens to the line is notified of an interrupt.
    pub open spec fn irq(self, irq: usize) -> KernelView {
        self.irq_upto(self.tasks.len() as int, irq)
    }

    /// The kernel after the timer has looked at the timeouts of all tasks at
    /// the time `now`: every task whose timeout has passed is notified of the
    /// timer, and its timeout is disarmed.
    pub open spec fn tick(self, now: usize) -> KernelView {
        self.tick_upto(self.tasks.len() as int, now)
    }
}

impl MicroKernelTask {
    /// Destroys the task `tid`. Every task that waits to send to it is
    /// notified of the abort and runs again, and so is every task that waits
    /// for a message of it. The queue of senders of the task is emptied, and
    /// the task leaves the queue that it may wait in itself.
    pub fn destroy(kernel: &mut Kernel, tid: usize)
        requires
            old(kernel).wf(),
            old(kernel)@.has(tid),
        ensures
            final(kernel).wf(),
            final(kernel)@ == old(kernel)@.destroy(tid),
    {
        proof {
            lemma_destroy_wf(kernel@, tid);
        }
        let count: usize = kernel.tasks.len();
        let me: usize = tid - 1;
        let mut i: usize = 0;
        while i < count
            invariant
                i <= count,
                count == kernel.tasks.len(),
                count == old(kernel).tasks.len(),
                me == tid - 1,
                me < count,
                count < usize::MAX,
                kernel.frames == old(kernel).frames,
                kernel.max_tasks == old(kernel).max_tasks,
                kernel.kernel_base == old(kernel).kernel_base,
                kernel.tasks@[me as int] == old(kernel).tasks@[me as int],
                forall|j: int| 0 <= j < count ==> (#[trigger] kernel.tasks@[j]).wf(),
                forall|j: int|
                    0 <= j < i && j != me ==> (#[trigger] kernel.tasks@[j])@ == old(kernel)@.after_destroy(
                        tid,
                        (j + 1) as usize,
                    ),
                forall|j: int| i <= j < count ==> #[trigger] kernel.tasks@[j] == old(kernel).tasks@[j],
            decreases count - i,
        {
            if i != me {
                let x: usize = i + 1;
                let queued = vec_contains(&kernel.tasks[me].senders, x);
                let waits = match (kernel.tasks[i].state, kernel.tasks[i].wait_for) {
                    (TaskState::Blocked, Some(from)) => from == tid,
                    _ => false,
                };
                if !kernel.tasks[i].destoryed && (queued || waits) {
                    kernel.tasks[i].notifications.bitor_assign(Notify::from(NotifyEnum::ABORTED));
                    kernel.tasks[i].state = TaskState::Runable;
                }
                vec_remove_value(&mut kernel.tasks[i].senders, tid);
                proof {
                    assert(old(kernel)@.task(x) == old(kernel).tasks@[i as int]@);
                    assert(old(kernel)@.task(tid) == old(kernel).tasks@[me as int]@);
                }
            }
            i = i + 1;
        }
        kernel.tasks[me].destoryed = true;
        kernel.tasks[me].senders.clear();
        proof {
            assert(kernel.tasks@[me as int]@.senders =~= Seq::<usize>::empty());
            assert(old(kernel)@.task(tid) == old(kernel).tasks@[me as int]@);
            assert(kernel@.tasks =~= old(kernel)@.destroy(tid).tasks);
        }
    }

    /// Notifies every task that lives and listens to the interrupt line
    /// `irq` of an interrupt.
    pub fn deliver_irq(kernel: &mut Kernel, irq: usize)
        requires
            old(kernel).wf(),
        ensures
            final(kernel).wf(),
            final(kernel)@ == old(kernel)@.irq(irq),
    {
        let count: usize = kernel.tasks.len();
        let mut i: usize = 0;
        proof {
            assert(kernel@.tasks =~= old(kernel)@.irq_upto(0, irq).tasks);
        }
        while i < count
            invariant
                i <= count,
                count == kernel.tasks.len(),
                count == old(kernel).tasks.len(),
                kernel.wf(),
                kernel@ == old(kernel)@.irq_upto(i as int, irq),
            decreases count - i,
        {
            let ghost before = kernel@;
            if !kernel.tasks[i].destoryed && vec_contains(&kernel.tasks[i].irqs, irq) {
                proof {
                    lemma_notify_wf(kernel@, (i + 1) as usize, Notify::spec_from(NotifyEnum::IRQ));
                }
                kernel.tasks[i].notify(Notify::from(NotifyEnum::IRQ));
                proof {
                    assert(kernel@.tasks =~= before.notify(
                        (i + 1) as usize,
                        Notify::spec_from(NotifyEnum::IRQ),
                    ).tasks);
                }
            }
            proof {
                assert(kernel@.tasks =~= old(kernel)@.irq_upto(i + 1, irq).tasks);
            }
            i = i + 1;
        }
    }

    /// The timer looks at the timeout of every task at the time `now`, in
    /// nanoseconds.
    pub fn check_timeouts(kernel: &mut Kernel, now: usize)
        requires
            old(kernel).wf(),
        ensures
            final(kernel).wf(),
            final(kernel)@ == old(kernel)@.tick(now),
    {
        let count: usize = kernel.tasks.len();
        let mut i: usize = 0;
        proof {
            assert(kernel@.tasks =~= old(kernel)@.tick_upto(0, now).tasks);
        }
        while i < count
            invariant
                i <= count,
                count == kernel.tasks.len(),
                count == old(kernel).tasks.len(),
                kernel.wf(),
                kernel@ == old(kernel)@.tick_upto(i as int, now),
            decreases count - i,
        {
            let ghost before = kernel@;
            if !kernel.tasks[i].destoryed {
                proof {
                    lemma_check_timeout_wf(kernel@, (i + 1) as usize, now);
                }
                kernel.tasks[i].check_timeout(now);
                proof {
                    assert(kernel@.tasks =~= before.with_task(
                        (i + 1) as usize,
                        before.task((i + 1) as usize).check_timeout(now),
                    ).tasks);
                }
            }
            proof {
                assert(kernel@.tasks =~= old(kernel)@.tick_upto(i + 1, now).tasks);
            }
            i = i + 1;
        }
    }
}

} // verus!
