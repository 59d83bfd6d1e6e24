//! What a driver waits for, each as a value that can be polled.

use vstd::prelude::*;
use crate::kernel::Kernel;
use crate::preserve::lemma_check_timeout_wf;
use crate::task::TaskState;

verus! {

/// Waits until a time has come, in milliseconds since boot.
pub struct NextTime(pub usize);

impl NextTime {
    /// Whether the time has come at the time `now`, in milliseconds.
    pub fn poll(&self, now: usize) -> (ready: bool)
        ensures
            ready == (now >= self.0),
    {
        now >= self.0
    }
}

/// What waits for `ms` milliseconds from the time `now`.
pub fn sleep(now: usize, ms: usize) -> (r: NextTime)
    requires
        now + ms <= usize::MAX,
    ensures
        r.0 == now + ms,
{
    NextTime(now + ms)
}

/// Waits until a task waits for no message any more.
pub struct WaitIPC(pub usize);

impl WaitIPC {
    /// Whether the task waits for no message.
    pub fn poll(&self, kernel: &Kernel) -> (ready: bool)
        requires
            kernel@.has(self.0),
        ensures
            ready == kernel@.task(self.0).wait_for is None,
    {
        kernel.tasks[self.0 - 1].wait_for.is_none()
    }
}

/// Waits until a task runs again.
pub struct WaitResume(pub usize);

impl WaitResume {
    /// Looks at the timeout of the task at the time `now`, in nanoseconds,
    /// and says whether the task runs.
    pub fn poll(&self, kernel: &mut Kernel, now: usize) -> (ready: bool)
        requires
            old(kernel).wf(),
            old(kernel)@.has(self.0),
        ensures
            final(kernel).wf(),
            final(kernel)@ == old(kernel)@.with_task(
                self.0,
                old(kernel)@.task(self.0).check_timeout(now),
            ),
            ready == (final(kernel)@.task(self.0).state == TaskState::Runable),
    {
        proof {
            lemma_check_timeout_wf(kernel@, self.0, now);
        }
        kernel.tasks[self.0 - 1].check_timeout(now);
        proof {
            assert(kernel@.tasks =~= old(kernel)@.with_task(
                self.0,
                old(kernel)@.task(self.0).check_timeout(now),
            ).tasks);
        }
        match kernel.tasks[self.0 - 1].state {
            TaskState::Runable => true,
            _ => false,
        }
    }
}

} // verus!
