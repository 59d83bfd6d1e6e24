//! The pager protocol: a page fault of a task is sent to its pager as a
//! message from the kernel, and the task goes on once the pager has replied.

use vstd::prelude::*;
use crate::abi::{ExceptionType, SysCallError};
use crate::flags::{IPCFlags, PageFaultReason};
use crate::kernel::Kernel;
use crate::message::{Message, MessageContent};
use crate::model::{IpcStep, KernelView};
use crate::page_table::PageTable;
use crate::preserve::lemma_update_wf;
use crate::task::{MicroKernelTask, TaskView};

verus! {

/// The flags of the message passing that sends a page fault to a pager: a
/// call that the kernel makes.
pub open spec fn pager_flags() -> IPCFlags {
    IPCFlags { bits: 0x30000 }.spec_union(IPCFlags { bits: 0x80000 })
}

/// The message that tells a pager of a page fault.
pub open spec fn fault_message(tid: usize, fault: (usize, usize, PageFaultReason)) -> MessageContent {
    MessageContent::PageFault { tid, uaddr: fault.0, ip: fault.1, fault: fault.2 }
}

impl KernelView {
    /// Whether the page fault of the task `tid`, if it has one, can be sent
    /// to a pager: the instruction that faulted lies below the kernel, and
    /// the task has a pager.
    pub open spec fn fault_can_be_sent(self, tid: usize) -> bool {
        self.task(tid).fault matches Some(fault) ==> fault.1 < self.kernel_base && self.task(
            tid,
        ).pager is Some
    }

    /// Whether the pager has dealt with a page fault: the message passing
    /// went well and brought the reply to a page fault.
    pub open spec fn pager_replied(result: Result<usize, SysCallError>, reply: Message) -> bool {
        result is Ok && reply.content is PageFaultReply
    }

    /// The kernel after the page fault of the task `tid` was dealt with.
    pub open spec fn clear_fault(self, tid: usize) -> KernelView {
        self.with_task(tid, TaskView { fault: None, ..self.task(tid) })
    }
}

/// Whether an address is mapped in an address space.
pub fn is_mapped(table: &PageTable, vaddr: usize) -> (r: bool)
    requires
        table.wf(),
    ensures
        r == PageTable::spec_translate(table@, vaddr) is Some,
{
    table.translate(vaddr).is_some()
}

impl MicroKernelTask {
    /// Sends the page fault of the task `tid`, if it has one, to its pager:
    /// the kernel calls the pager on behalf of the task, with a message that
    /// holds the task, the address, the instruction and the reason. The
    /// result is `None` where the task has no page fault, and else how far
    /// the call has come.
    pub fn handle_page_fault(kernel: &mut Kernel, tid: usize, message: &mut Message) -> (r: Option<IpcStep>)
        requires
            old(kernel).wf(),
            old(kernel)@.can_begin(tid),
            old(kernel)@.fault_can_be_sent(tid),
        ensures
            final(kernel).wf(),
            match old(kernel)@.task(tid).fault {
                None => r is None && final(kernel)@ == old(kernel)@ && *final(message) == *old(message),
                Some(fault) => {
                    let pager = old(kernel)@.task(tid).pager->0;
                    let done = old(kernel)@.ipc(
                        tid,
                        pager,
                        pager,
                        fault_message(tid, fault),
                        pager_flags(),
                    );
                    &&& r == Some(done.step)
                    &&& final(kernel)@ == done.kernel
                    &&& *final(message) == match done.received {
                        Some(m) => m,
                        None => Message { source: 0, content: fault_message(tid, fault) },
                    }
                },
            },
    {
        let fault = kernel.tasks[tid - 1].fault;
        match fault {
            None => None,
            Some((vaddr, sepc, reason)) => {
                let pager = kernel.tasks[tid - 1].pager.unwrap();
                *message = Message::blank();
                message.content = MessageContent::PageFault { tid, uaddr: vaddr, ip: sepc, fault: reason };
                let flags = IPCFlags::call().union(IPCFlags::kernel());
                Some(MicroKernelTask::ipc(kernel, tid, pager, pager, message, flags))
            },
        }
    }

    /// Ends the pager protocol of the task `tid` with the result of the call
    /// to the pager and the message that it brought. Where the call went well
    /// and brought the reply to a page fault, the page fault of the task is
    /// cleared and the task goes on. Any other result destroys the task.
    pub fn finish_page_fault(kernel: &mut Kernel, tid: usize, result: Result<usize, SysCallError>, reply: &Message) -> (r: Result<(), ExceptionType>)
        requires
            old(kernel).wf(),
            old(kernel)@.has(tid),
        ensures
            final(kernel).wf(),
            KernelView::pager_replied(result, *reply) ==> r == Ok::<(), ExceptionType>(()) && final(kernel)@ == old(kernel)@.clear_fault(tid),
            !KernelView::pager_replied(result, *reply) ==> r == Err::<(), ExceptionType>(
                ExceptionType::InvalidPagerReply,
            ) && final(kernel)@ == old(kernel)@.destroy(tid),
    {
        let replied = match (result, reply.content) {
            (Ok(_), MessageContent::PageFaultReply) => true,
            _ => false,
        };
        if replied {
            proof {
                assert(kernel@.task_ok(tid));
                lemma_update_wf(kernel@, tid, TaskView { fault: None, ..kernel@.task(tid) });
            }
            kernel.tasks[tid - 1].fault = None;
            proof {
                assert(kernel@.tasks =~= old(kernel)@.clear_fault(tid).tasks);
            }
            Ok(())
        } else {
            MicroKernelTask::destroy(kernel, tid);
            Err(ExceptionType::InvalidPagerReply)
        }
    }
}

/// Looks whether the task `tid` can use the address `vaddr`, before the
/// kernel reads or writes there on its behalf. Where the address is not
/// mapped, a page fault is recorded for the task, as a write of user mode, and
/// sent to its pager. The result is `None` where the address is mapped, and
/// else how far the call to the pager has come.
pub fn handle_page_fault(kernel: &mut Kernel, tid: usize, vaddr: usize, message: &mut Message) -> (r: Option<IpcStep>)
    requires
        old(kernel).wf(),
        old(kernel)@.can_begin(tid),
        PageTable::spec_translate(old(kernel)@.task(tid).mappings, vaddr) is None ==> old(kernel)@.task(tid).trap_frame.sepc < old(kernel)@.kernel_base && old(kernel)@.task(tid).pager
            is Some,
    ensures
        final(kernel).wf(),
        match PageTable::spec_translate(old(kernel)@.task(tid).mappings, vaddr) {
            Some(_) => r is None && final(kernel)@ == old(kernel)@ && *final(message) == *old(message),
            None => {
                let before = old(kernel)@.task(tid);
                let faulted = old(kernel)@.with_task(
                    tid,
                    before.set_fault(
                        vaddr,
                        PageFaultReason { bits: 0x8 }.spec_union(PageFaultReason { bits: 0x2 }),
                        old(kernel)@.kernel_base,
                    ),
                );
                let fault = faulted.task(tid).fault->0;
                let pager = before.pager->0;
                let done = faulted.ipc(tid, pager, pager, fault_message(tid, fault), pager_flags());
                &&& r == Some(done.step)
                &&& final(kernel)@ == done.kernel
                &&& *final(message) == match done.received {
                    Some(m) => m,
                    None => Message { source: 0, content: fault_message(tid, fault) },
                }
            },
        },
{
    if is_mapped(&kernel.tasks[tid - 1].page_table, vaddr) {
        return None;
    }
    let base = kernel.kernel_base;
    proof {
        let before = kernel@.task(tid);
        assert(kernel@.task_ok(tid));
        lemma_update_wf(
            kernel@,
            tid,
            before.set_fault(
                vaddr,
                PageFaultReason { bits: 0x8 }.spec_union(PageFaultReason { bits: 0x2 }),
                base,
            ),
        );
    }
    kernel.tasks[tid - 1].set_fault(
        vaddr,
        PageFaultReason::user().union(PageFaultReason::write()),
        base,
    );
    proof {
        let before = old(kernel)@.task(tid);
        assert(kernel@.tasks =~= old(kernel)@.with_task(
            tid,
            before.set_fault(
                vaddr,
                PageFaultReason { bits: 0x8 }.spec_union(PageFaultReason { bits: 0x2 }),
                base,
            ),
        ).tasks);
    }
    MicroKernelTask::handle_page_fault(kernel, tid, message)
}

} // verus!
