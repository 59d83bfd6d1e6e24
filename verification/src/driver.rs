//! The driver of a task: what the kernel does for one task between two runs
//! of it in user mode. The driver itself lives outside this library, since
//! only the machine can run user mode; here is every decision that it takes.

use vstd::prelude::*;
use crate::abi::{SysCall, SysCallError, IPC_ANY};
use crate::flags::{IPCFlags, PMAllocFlags, PageFaultReason};
use crate::frame::{FrameTracker, PAGE_SIZE, frame_dealloc};
use crate::kernel::Kernel;
use crate::message::Message;
use crate::model::{IpcStep, KernelView};
use crate::notify::Notify;
use crate::page_table::{page_of, PageTable};
use crate::preserve::lemma_update_wf;
use crate::syscall::{Machine, SysStep, UserData, NSEC_PER_MSEC};
use crate::task::{MicroKernelTask, TaskState, TaskView};

verus! {

/// Why the machine has left user mode, or was interrupted.
#[derive(Debug, Clone, Copy, PartialEq, Eq)]
pub enum TrapType {
    /// A task made a system call.
    UserEnvCall,
    /// The timer ticked.
    Time,
    /// An instruction could not be fetched from this address.
    InstructionPageFault(usize),
    /// This address could not be written.
    StorePageFault(usize),
    /// This address could not be read.
    LoadPageFault(usize),
    /// The instruction at this address may not be run.
    IllegalInstruction(usize),
    /// An interrupt has occurred on this line.
    Irq(usize),
    /// Anything else.
    Other,
}

/// What the driver of a task does next.
#[derive(Debug, Clone, Copy, PartialEq, Eq)]
pub enum RunStep {
    /// The task was destroyed: its frames are free again and the driver ends.
    Exit,
    /// The task waits: the driver lets other tasks run and looks again.
    Yield,
    /// The task runs in user mode until the next trap.
    EnterUser,
}

/// What the machine has to do after a system call that went well.
#[derive(Debug, Clone, Copy, PartialEq, Eq)]
pub enum Effect {
    /// Nothing.
    Nothing,
    /// Fill the `size` bytes of physical memory at `paddr` with zeros.
    Zero { paddr: usize, size: usize },
    /// Map the page `vpn` of the task `tid` to the frame `ppn`.
    MapPage { tid: usize, vpn: usize, ppn: usize },
    /// Unmap the page `vpn` of the task `tid`.
    UnmapPage { tid: usize, vpn: usize },
    /// Make an address space for the task `tid`, map its stack and start its driver.
    Spawn { tid: usize },
}

/// The address in the memory of the task that a system call reads or
/// writes: the message of a message passing, the bytes of a call on the
/// console, the name of a task to create.
pub open spec fn spec_user_address(id: usize, args: [usize; 6]) -> Option<usize> {
    match SysCall::of_number(id) {
        Some(SysCall::IPC) => Some(args[2]),
        Some(SysCall::SerialWrite) | Some(SysCall::SerialRead) | Some(SysCall::TaskCreate) => Some(
            args[0],
        ),
        _ => None,
    }
}

/// What the machine has to do after the system call with the number `id`
/// and the arguments `args` went well with the result `result`.
pub open spec fn spec_effect(id: usize, args: [usize; 6], result: usize) -> Effect {
    match SysCall::of_number(id) {
        Some(SysCall::PMAlloc) => Effect::Zero { paddr: result, size: args[1] },
        Some(SysCall::VMMap) => Effect::MapPage {
            tid: args[0],
            vpn: page_of(args[1]),
            ppn: page_of(args[2]),
        },
        Some(SysCall::VMUnmap) => Effect::UnmapPage { tid: args[0], vpn: page_of(args[1]) },
        Some(SysCall::TaskCreate) => Effect::Spawn { tid: result },
        _ => Effect::Nothing,
    }
}

/// The address in the memory of the task that a system call reads or writes,
/// if it uses one. The driver sends the address to the pager where it is not
/// mapped, before it makes the call.
pub fn user_address(id: usize, args: [usize; 6]) -> (r: Option<usize>)
    ensures
        r == spec_user_address(id, args),
{
    match SysCall::try_from(id) {
        Ok(SysCall::IPC) => Some(args[2]),
        Ok(SysCall::SerialWrite) => Some(args[0]),
        Ok(SysCall::SerialRead) => Some(args[0]),
        Ok(SysCall::TaskCreate) => Some(args[0]),
        _ => None,
    }
}

/// What the machine has to do after a system call that went well: memory
/// that was allocated is filled with zeros, a page that was mapped or
/// unmapped is so in the page table of the machine too, and a task that was
/// created gets an address space and a driver.
pub fn effect(id: usize, args: [usize; 6], result: usize) -> (r: Effect)
    ensures
        r == spec_effect(id, args, result),
{
    match SysCall::try_from(id) {
        Ok(SysCall::PMAlloc) => Effect::Zero { paddr: result, size: args[1] },
        Ok(SysCall::VMMap) => Effect::MapPage {
            tid: args[0],
            vpn: args[1] / PAGE_SIZE,
            ppn: args[2] / PAGE_SIZE,
        },
        Ok(SysCall::VMUnmap) => Effect::UnmapPage { tid: args[0], vpn: args[1] / PAGE_SIZE },
        Ok(SysCall::TaskCreate) => Effect::Spawn { tid: result },
        _ => Effect::Nothing,
    }
}

/// What the driver of a task is in the middle of, between two of its turns.
#[derive(Debug, Clone, Copy, PartialEq, Eq)]
pub enum Suspended {
    /// Nothing: the task is about to run in user mode.
    Nothing,
    /// A system call that waits in a message passing; the message of the
    /// task lies at this address.
    Syscall(usize),
    /// The call to the pager for a page fault.
    Fault,
    /// The call to the pager for an address that the system call with this
    /// number and these arguments uses; the system call is made once the
    /// pager has replied.
    Validate(usize, [usize; 6]),
    /// A system call with this number and these arguments that is made again.
    Retry(usize, [usize; 6]),
}

/// What the driver of a task does in a turn.
#[derive(Debug, Clone, Copy, PartialEq, Eq)]
pub enum Turn {
    /// It looks whether the task runs, and lets it.
    Run,
    /// It makes the system call with this number and these arguments.
    Call(usize, [usize; 6]),
    /// It resumes the message passing that the task waits in.
    Resume,
}

/// What the driver of a task does after it has resumed a message passing.
#[derive(Debug, Clone, Copy, PartialEq, Eq)]
pub enum Resumed {
    /// The message passing still waits: nothing.
    Wait,
    /// The system call is over with this result. Where `write_back` holds an
    /// address, the message that was received is written there first.
    Return { write_back: Option<usize>, result: Result<usize, SysCallError> },
    /// The call to the pager is over with this result, which ends the pager
    /// protocol. Where `then` holds a system call and the task lives on, the
    /// system call is made.
    EndFault { result: Result<usize, SysCallError>, then: Option<(usize, [usize; 6])> },
}

/// What the driver of a task does in a turn, by what it is in the middle of.
pub open spec fn spec_turn(suspended: Suspended) -> Turn {
    match suspended {
        Suspended::Nothing => Turn::Run,
        Suspended::Retry(id, args) => Turn::Call(id, args),
        _ => Turn::Resume,
    }
}

/// What the driver of a task does after it has resumed the message passing
/// that `suspended` waited in and that has come as far as `step`.
pub open spec fn spec_after_resume(suspended: Suspended, step: IpcStep) -> Resumed {
    match step {
        IpcStep::Blocked => Resumed::Wait,
        IpcStep::Done(result) => match suspended {
            Suspended::Syscall(addr) => Resumed::Return {
                write_back: if result is Ok {
                    Some(addr)
                } else {
                    None
                },
                result,
            },
            Suspended::Validate(id, args) => Resumed::EndFault { result, then: Some((id, args)) },
            _ => Resumed::EndFault { result, then: None },
        },
    }
}

/// What the driver of a task does in a turn: a task in the middle of
/// nothing is run, a system call that found the console empty is made
/// again, and a message passing that waits is resumed.
pub fn turn(suspended: Suspended) -> (r: Turn)
    ensures
        r == spec_turn(suspended),
{
    match suspended {
        Suspended::Nothing => Turn::Run,
        Suspended::Retry(id, args) => Turn::Call(id, args),
        _ => Turn::Resume,
    }
}

/// What the driver of a task does after it has resumed a message passing.
/// While the message passing waits, nothing. A system call that is over
/// returns its result, after the message that it received was written to the
/// memory of the task. A call to the pager that is over ends the pager
/// protocol; where it was made for an address that a system call uses, the
/// system call follows.
pub fn after_resume(suspended: Suspended, step: IpcStep) -> (r: Resumed)
    ensures
        r == spec_after_resume(suspended, step),
{
    match step {
        IpcStep::Blocked => Resumed::Wait,
        IpcStep::Done(result) => match suspended {
            Suspended::Syscall(addr) => {
                let write_back = match result {
                    Ok(_) => Some(addr),
                    Err(_) => None,
                };
                Resumed::Return { write_back, result }
            },
            Suspended::Validate(id, args) => Resumed::EndFault { result, then: Some((id, args)) },
            _ => Resumed::EndFault { result, then: None },
        },
    }
}

/// The frames of a list, as a set.
pub open spec fn frame_set(pages: Seq<FrameTracker>) -> Set<int> {
    Set::new(|f: int| exists|i: int| 0 <= i < pages.len() && #[trigger] pages[i].0 == f)
}

/// A message passing that is over or waits, as a system call.
pub open spec fn step_of(step: IpcStep) -> SysStep {
    match step {
        IpcStep::Done(r) => SysStep::Done(r),
        IpcStep::Blocked => SysStep::Blocked,
    }
}

impl KernelView {
    /// The kernel after the frames of the task `tid` were given back to the pool.
    pub open spec fn release(self, tid: usize) -> KernelView {
        KernelView {
            tasks: self.tasks.update(tid - 1, TaskView { pages: Seq::empty(), ..self.task(tid) }),
            free: self.free.union(frame_set(self.task(tid).pages)),
            ..self
        }
    }

    /// The kernel after a result was put into the register of the task `tid`
    /// that takes the result of a system call: the number where the call went
    /// well, and the code of the error in two's complement where it did not.
    pub open spec fn set_return(self, tid: usize, result: Result<usize, SysCallError>) -> KernelView {
        let word = match result {
            Ok(r) => r,
            Err(e) => e.word(),
        };
        self.with_task(
            tid,
            TaskView {
                trap_frame: crate::task::TrapFrame { ret: word, ..self.task(tid).trap_frame },
                ..self.task(tid)
            },
        )
    }

    /// The kernel after a trap. The timer looks at the timeouts of all tasks;
    /// a page fault is recorded for the task that runs, with the kind of
    /// access as the reason; an interrupt is told to the tasks that listen to
    /// its line; any other trap changes nothing.
    pub open spec fn trap(self, current: Option<usize>, trap: TrapType, now: usize) -> KernelView {
        match trap {
            TrapType::Time => self.tick(now),
            TrapType::InstructionPageFault(vaddr) => self.fault(
                current,
                vaddr,
                PageFaultReason { bits: 0x4 },
            ),
            TrapType::StorePageFault(vaddr) => self.fault(current, vaddr, PageFaultReason { bits: 0x2 }),
            TrapType::LoadPageFault(vaddr) => self.fault(current, vaddr, PageFaultReason { bits: 0x1 }),
            TrapType::Irq(line) => self.irq(line),
            _ => self,
        }
    }

    /// The kernel after a page fault of the task that runs was recorded.
    pub open spec fn fault(self, current: Option<usize>, vaddr: usize, reason: PageFaultReason) -> KernelView {
        match current {
            Some(tid) if self.has(tid) => self.with_task(
                tid,
                self.task(tid).set_fault(vaddr, reason, self.kernel_base),
            ),
            _ => self,
        }
    }

    /// Whether `n`, `r` and what is written back are what the system call
    /// with the number `id` and the arguments `args` of the task `tid` leaves
    /// behind. `serves` says whether the pool of frames serves a request of
    /// `args[1]` bytes, which decides an allocation of memory.
    pub open spec fn dispatched(self, n: KernelView, tid: usize, id: usize, args: [usize; 6], machine: Machine, serves: bool, message: Message, bytes: Seq<u8>, message_after: Message, bytes_after: Seq<u8>, r: SysStep) -> bool {
        match SysCall::of_number(id) {
            None => n == self && r == SysStep::Done(Err(SysCallError::InvalidSyscall)) && message_after
                == message && bytes_after == bytes,
            Some(SysCall::IPC) => bytes_after == bytes && match IPCFlags::spec_from_bits(args[3]) {
                Some(f) if !f.has_kernel() && (args[1] == IPC_ANY || self.live(args[1])) => {
                    let done = self.ipc(tid, args[0], args[1], message.content, f);
                    &&& n == done.kernel
                    &&& r == step_of(done.step)
                    &&& message_after == match done.received {
                        Some(m) => m,
                        None => message,
                    }
                },
                _ => n == self && r == SysStep::Done(Err(SysCallError::InvalidArg)) && message_after
                    == message,
            },
            Some(SysCall::Notify) => message_after == message && bytes_after == bytes && if self.live(
                args[0],
            ) {
                n == self.notify(args[0], Notify::spec_from_bits(args[1])) && r == SysStep::Done(Ok(0))
            } else {
                n == self && r == SysStep::Done(Err(SysCallError::InvalidTask))
            },
            Some(SysCall::SerialWrite) => n == self && message_after == message && bytes_after == bytes
                && r == SysStep::Done(Ok(bytes.len() as usize)),
            Some(SysCall::SerialRead) => n == self && message_after == message && match machine.key {
                None => r == SysStep::Retry && bytes_after == bytes,
                Some(byte) => if bytes.len() == 0 {
                    r == SysStep::Done(Err(SysCallError::InvalidArg)) && bytes_after == bytes
                } else {
                    r == SysStep::Done(Ok(1)) && bytes_after == bytes.update(0, byte)
                },
            },
            Some(SysCall::TaskCreate) => message_after == message && bytes_after == bytes && if !vstd::utf8::valid_utf8(
                bytes,
            ) {
                n == self && r == SysStep::Done(Err(SysCallError::InvalidArg))
            } else if self.can_create() {
                r == SysStep::Done(Ok((self.tasks.len() + 1) as usize)) && self.created(
                    n,
                    vstd::utf8::decode_utf8(bytes),
                    args[1],
                    self.pager_of(args[2]),
                    Map::empty(),
                )
            } else {
                n == self && r == SysStep::Done(
                    Err(
                        if self.tasks.len() >= self.max_tasks {
                            SysCallError::TooManyTasks
                        } else {
                            SysCallError::NoMemory
                        },
                    ),
                )
            },
            Some(SysCall::TaskDestory) => message_after == message && bytes_after == bytes && if self.live(
                args[0],
            ) {
                n == self.destroy(args[0]) && r == SysStep::Done(Ok(0))
            } else {
                n == self && r == SysStep::Done(Err(SysCallError::InvalidTask))
            },
            Some(SysCall::TaskExit) => message_after == message && bytes_after == bytes && n
                == self.destroy(tid) && r == SysStep::Done(Ok(0)),
            Some(SysCall::TaskSelf) => message_after == message && bytes_after == bytes && n == self
                && r == SysStep::Done(Ok(tid)),
            Some(SysCall::PMAlloc) => message_after == message && bytes_after == bytes && if PMAllocFlags::spec_from_bits(
                args[2],
            ) is None {
                n == self && r == SysStep::Done(Err(SysCallError::InvalidArg))
            } else if !self.permitted(tid, args[0]) {
                n == self && r == SysStep::Done(Err(SysCallError::InvalidTask))
            } else {
                &&& 0 < args[1] <= PAGE_SIZE ==> (serves <==> self.free != Set::<int>::empty())
                &&& match r {
                    SysStep::Done(Ok(paddr)) => serves && self.allocated(n, args[0], args[1], paddr),
                    _ => !serves && n == self && r == SysStep::Done(Err(SysCallError::NoMemory)),
                }
            },
            Some(SysCall::VMMap) => message_after == message && bytes_after == bytes && if self.permitted(
                tid,
                args[0],
            ) {
                n == self.map(args[0], args[1], args[2]) && r == SysStep::Done(Ok(0))
            } else {
                n == self && r == SysStep::Done(Err(SysCallError::InvalidTask))
            },
            Some(SysCall::VMUnmap) => message_after == message && bytes_after == bytes && if self.permitted(
                tid,
                args[0],
            ) {
                n == self.unmap(args[0], args[1]) && r == SysStep::Done(Ok(0))
            } else {
                n == self && r == SysStep::Done(Err(SysCallError::InvalidTask))
            },
            Some(SysCall::IrqListen) => message_after == message && bytes_after == bytes && n
                == self.with_task(tid, self.task(tid).listen(args[0])) && r == SysStep::Done(Ok(0)),
            Some(SysCall::IrqUnlisten) => message_after == message && bytes_after == bytes && if self.task(
                tid,
            ).irqs.contains(args[0]) {
                n == self.with_task(tid, self.task(tid).unlisten(args[0])) && r == SysStep::Done(Ok(0))
            } else {
                n == self && r == SysStep::Done(Err(SysCallError::NotFound))
            },
            Some(SysCall::HinaVM) => n == self && message_after == message && bytes_after == bytes && r
                == SysStep::Done(Err(SysCallError::NotSupported)),
            Some(SysCall::Time) => message_after == message && bytes_after == bytes && if machine.now
                + args[0] * NSEC_PER_MSEC <= usize::MAX {
                n == self.arm(tid, (machine.now + args[0] * NSEC_PER_MSEC) as usize) && r
                    == SysStep::Done(Ok(0))
            } else {
                n == self && r == SysStep::Done(Err(SysCallError::InvalidArg))
            },
            Some(SysCall::UPTime) => n == self && message_after == message && bytes_after == bytes && r
                == SysStep::Done(Ok(machine.now / NSEC_PER_MSEC)),
            Some(SysCall::Shutdown) => n == self && message_after == message && bytes_after == bytes
                && r == SysStep::Shutdown,
            Some(SysCall::TransVAddr) => n == self && message_after == message && bytes_after == bytes
                && r == SysStep::Done(
                match PageTable::spec_translate(self.task(tid).mappings, args[0]) {
                    Some(paddr) => Ok(paddr),
                    None => Err(SysCallError::InvalidUaddr),
                },
            ),
        }
    }
}

/// A message passing that is over or waits, as a system call.
pub fn ipc_step(step: IpcStep) -> (r: SysStep)
    ensures
        r == step_of(step),
{
    match step {
        IpcStep::Done(r) => SysStep::Done(r),
        IpcStep::Blocked => SysStep::Blocked,
    }
}

impl MicroKernelTask {
    /// Does the system call with the number `id` and the arguments `args` for
    /// the task `tid`. A number that no system call has fails with
    /// `InvalidSyscall`; the call that is reserved fails with `NotSupported`.
    pub fn syscall(kernel: &mut Kernel, tid: usize, id: usize, args: [usize; 6], machine: &Machine, data: &mut UserData) -> (r: SysStep)
        requires
            old(kernel).wf(),
            old(kernel)@.can_begin(tid),
        ensures
            final(kernel).wf(),
            old(kernel)@.dispatched(
                final(kernel)@,
                tid,
                id,
                args,
                *machine,
                old(kernel).serves(args[1]),
                old(data).message,
                old(data).bytes@,
                final(data).message,
                final(data).bytes@,
                r,
            ),
    {
        let call = match SysCall::try_from(id) {
            Ok(call) => call,
            Err(_) => {
                return SysStep::Done(Err(SysCallError::InvalidSyscall));
            },
        };
        match call {
            SysCall::IPC => ipc_step(
                MicroKernelTask::sys_ipc(kernel, tid, args[0], args[1], &mut data.message, args[3]),
            ),
            SysCall::Notify => SysStep::Done(
                MicroKernelTask::sys_notify(kernel, args[0], Notify::from_bits(args[1])),
            ),
            SysCall::SerialWrite => SysStep::Done(MicroKernelTask::sys_serial_write(data.bytes.as_slice())),
            SysCall::SerialRead => match machine.key {
                None => SysStep::Retry,
                Some(byte) => {
                    if data.bytes.len() == 0 {
                        SysStep::Done(Err(SysCallError::InvalidArg))
                    } else {
                        SysStep::Done(MicroKernelTask::sys_serial_read(&mut data.bytes, byte))
                    }
                },
            },
            SysCall::TaskCreate => SysStep::Done(
                MicroKernelTask::sys_task_create(kernel, data.bytes.as_slice(), args[1], args[2]),
            ),
            SysCall::TaskDestory => SysStep::Done(MicroKernelTask::sys_task_destroy(kernel, args[0])),
            SysCall::TaskExit => SysStep::Done(MicroKernelTask::sys_task_exit(kernel, tid)),
            SysCall::TaskSelf => SysStep::Done(Ok(tid)),
            SysCall::PMAlloc => SysStep::Done(
                MicroKernelTask::sys_pm_alloc(kernel, tid, args[0], args[1], args[2]),
            ),
            SysCall::VMMap => SysStep::Done(
                MicroKernelTask::sys_vm_map(kernel, tid, args[0], args[1], args[2], args[3]),
            ),
            SysCall::VMUnmap => SysStep::Done(MicroKernelTask::sys_vm_unmap(kernel, tid, args[0], args[1])),
            SysCall::IrqListen => SysStep::Done(MicroKernelTask::sys_irq_listen(kernel, tid, args[0])),
            SysCall::IrqUnlisten => SysStep::Done(
                MicroKernelTask::sys_irq_unlisten(kernel, tid, args[0]),
            ),
            SysCall::Time => SysStep::Done(MicroKernelTask::sys_time(kernel, tid, machine.now, args[0])),
            SysCall::UPTime => SysStep::Done(MicroKernelTask::sys_uptime(machine.now)),
            SysCall::HinaVM => SysStep::Done(Err(SysCallError::NotSupported)),
            SysCall::Shutdown => SysStep::Shutdown,
            SysCall::TransVAddr => SysStep::Done(MicroKernelTask::sys_trans_paddr(kernel, tid, args[0])),
        }
    }

    /// Puts the result of a system call into the register of the task `tid`
    /// that takes it.
    pub fn set_return(kernel: &mut Kernel, tid: usize, result: Result<usize, SysCallError>)
        requires
            old(kernel).wf(),
            old(kernel)@.has(tid),
        ensures
            final(kernel).wf(),
            final(kernel)@ == old(kernel)@.set_return(tid, result),
    {
        let word = match result {
            Ok(r) => r,
            Err(e) => e.as_word(),
        };
        proof {
            assert(kernel@.task_ok(tid));
            lemma_update_wf(
                kernel@,
                tid,
                TaskView {
                    trap_frame: crate::task::TrapFrame { ret: word, ..kernel@.task(tid).trap_frame },
                    ..kernel@.task(tid)
                },
            );
        }
        kernel.tasks[tid - 1].trap_frame.ret = word;
        proof {
            assert(kernel@.tasks =~= old(kernel)@.set_return(tid, result).tasks);
        }
    }

    /// What the driver of the task `tid` does at the top of its loop. A task
    /// that was destroyed gives its frames back to the pool, and its driver
    /// ends. A task that does not run lets the others run. Any other task
    /// goes to user mode.
    pub fn run(kernel: &mut Kernel, tid: usize) -> (r: RunStep)
        requires
            old(kernel).wf(),
            old(kernel)@.has(tid),
        ensures
            final(kernel).wf(),
            r == if old(kernel)@.task(tid).destroyed {
                RunStep::Exit
            } else if old(kernel)@.task(tid).state != TaskState::Runable {
                RunStep::Yield
            } else {
                RunStep::EnterUser
            },
            final(kernel)@ == if old(kernel)@.task(tid).destroyed {
                old(kernel)@.release(tid)
            } else {
                old(kernel)@
            },
    {
        let me: usize = tid - 1;
        if kernel.tasks[me].destoryed {
            let ghost before = kernel@;
            let ghost pages = kernel@.task(tid).pages;
            proof {
                assert(frame_set(pages.take(pages.len() as int)) =~= frame_set(pages)) by {
                    assert(pages.take(pages.len() as int) =~= pages);
                }
                assert(frame_set(pages).difference(frame_set(pages)) =~= Set::<int>::empty());
                assert(before.free.union(Set::<int>::empty()) =~= before.free);
            }
            while kernel.tasks[me].pages.len() > 0
                invariant
                    me == tid - 1,
                    before.wf(),
                    before.has(tid),
                    before == old(kernel)@,
                    pages == before.task(tid).pages,
                    kernel.tasks@.len() == old(kernel).tasks@.len(),
                    kernel.max_tasks == old(kernel).max_tasks,
                    kernel.kernel_base == old(kernel).kernel_base,
                    forall|j: int| 0 <= j < kernel.tasks@.len() ==> (#[trigger] kernel.tasks@[j]).wf(),
                    forall|j: int|
                        0 <= j < kernel.tasks@.len() && j != me ==> (#[trigger] kernel.tasks@[j])@
                            == before.tasks[j],
                    kernel.tasks@[me as int]@ == (TaskView {
                        pages: kernel.tasks@[me as int]@.pages,
                        ..before.task(tid)
                    }),
                    kernel.tasks@[me as int]@.pages.len() <= pages.len(),
                    kernel.tasks@[me as int]@.pages == pages.take(
                        kernel.tasks@[me as int]@.pages.len() as int,
                    ),
                    kernel.frames.wf(),
                    kernel.frames.managed() == before.managed,
                    kernel.frames.free() == before.free.union(
                        frame_set(pages).difference(frame_set(kernel.tasks@[me as int]@.pages)),
                    ),
                decreases kernel.tasks@[me as int]@.pages.len(),
            {
                let ghost held = kernel.tasks@[me as int]@.pages;
                let page = kernel.tasks[me].pages.pop().unwrap();
                proof {
                    let at = held.len() - 1;
                    assert(page == pages[at]);
                    assert(before.owned(tid, at) == page.0);
                    assert(before.managed.contains(before.owned(tid, at)));
                    assert(!kernel.frames.free().contains(page.0 as int)) by {
                        assert(!before.free.contains(before.owned(tid, at)));
                        assert(frame_set(held).contains(page.0 as int));
                    }
                }
                frame_dealloc(&mut kernel.frames, page.0);
                proof {
                    let at = held.len() - 1;
                    let now = kernel.tasks@[me as int]@.pages;
                    assert(now =~= pages.take(at));
                    assert(frame_set(pages).difference(frame_set(now)) =~= frame_set(pages).difference(
                        frame_set(held),
                    ).insert(page.0 as int)) by {
                        assert forall|f: int| frame_set(held).contains(f) == (frame_set(now).contains(f)
                            || f == page.0) by {
                            if frame_set(held).contains(f) {
                                let i = choose|i: int| 0 <= i < held.len() && #[trigger] held[i].0 == f;
                                if i < at {
                                    assert(now[i].0 == f);
                                }
                            }
                            if frame_set(now).contains(f) {
                                let i = choose|i: int| 0 <= i < now.len() && #[trigger] now[i].0 == f;
                                assert(held[i].0 == f);
                            }
                            if f == page.0 {
                                assert(held[at].0 == f);
                            }
                        }
                        assert(!frame_set(now).contains(page.0 as int)) by {
                            if frame_set(now).contains(page.0 as int) {
                                let i = choose|i: int|
                                    0 <= i < now.len() && #[trigger] now[i].0 == page.0;
                                assert(before.owned(tid, i) != before.owned(tid, at));
                            }
                        }
                        assert(frame_set(pages).contains(page.0 as int)) by {
                            assert(pages[at].0 == page.0);
                        }
                    }
                    assert(kernel.frames.free() =~= before.free.union(
                        frame_set(pages).difference(frame_set(now)),
                    ));
                }
            }
            proof {
                let n = kernel@;
                assert(kernel.tasks@[me as int]@.pages =~= Seq::<FrameTracker>::empty());
                assert(frame_set(kernel.tasks@[me as int]@.pages) =~= Set::<int>::empty());
                assert(n.tasks[me as int] == before.release(tid).tasks[me as int]);
                assert(n.free =~= before.free.union(frame_set(pages)));
                assert(n.tasks =~= before.release(tid).tasks);
                assert(n == before.release(tid));
                lemma_release_wf(before, tid);
            }
            return RunStep::Exit;
        }
        match kernel.tasks[me].state {
            TaskState::Runable => RunStep::EnterUser,
            _ => RunStep::Yield,
        }
    }
}

/// Giving the frames of a task back keeps what holds of every kernel.
pub proof fn lemma_release_wf(k: KernelView, tid: usize)
    requires
        k.wf(),
        k.has(tid),
    ensures
        k.release(tid).wf(),
{
    let n = k.release(tid);
    let pages = k.task(tid).pages;
    assert forall|t: usize| n.has(t) implies #[trigger] n.task_ok(t) by {
        assert(k.task_ok(t));
        assert forall|i: int| 0 <= i < n.task(t).senders.len() implies n.queued_ok(
            t,
            #[trigger] n.task(t).senders[i],
        ) by {
            let y = k.task(t).senders[i];
            assert(k.queued_ok(t, y));
        }
    }
    assert forall|f: int| n.free.contains(f) implies n.managed.contains(f) by {
        if frame_set(pages).contains(f) {
            let i = choose|i: int| 0 <= i < pages.len() && #[trigger] pages[i].0 == f;
            assert(k.owned(tid, i) == f);
        }
    }
    assert forall|t: usize, i: int| n.has(t) && 0 <= i < n.task(t).pages.len() implies n.managed.contains(
        #[trigger] n.owned(t, i),
    ) && !n.free.contains(n.owned(t, i)) by {
        assert(t != tid);
        assert(k.owned(t, i) == n.owned(t, i));
        if frame_set(pages).contains(n.owned(t, i)) {
            let j = choose|j: int| 0 <= j < pages.len() && #[trigger] pages[j].0 == n.owned(t, i);
            assert(k.owned(tid, j) == pages[j].0);
            assert(k.owned(tid, j) != k.owned(t, i));
        }
    }
    assert forall|t1: usize, i1: int, t2: usize, i2: int|
        n.has(t1) && 0 <= i1 < n.task(t1).pages.len() && n.has(t2) && 0 <= i2 < n.task(
            t2,
        ).pages.len() && (t1 != t2 || i1 != i2) implies #[trigger] n.owned(t1, i1) != #[trigger] n.owned(
        t2,
        i2,
    ) by {
        assert(k.owned(t1, i1) == n.owned(t1, i1));
        assert(k.owned(t2, i2) == n.owned(t2, i2));
    }
}

/// What the kernel does on a trap that is no system call. The timer looks at
/// the timeouts of all tasks, at the time `now` in nanoseconds. A page fault
/// is recorded for the task `current` that runs, to be sent to its pager
/// later; it is never dealt with here. An interrupt is told to the tasks
/// that listen to its line. Any other trap is passed over.
pub fn interrupt_handler(kernel: &mut Kernel, current: Option<usize>, trap: TrapType, now: usize)
    requires
        old(kernel).wf(),
        !(trap is IllegalInstruction),
    ensures
        final(kernel).wf(),
        final(kernel)@ == old(kernel)@.trap(current, trap, now),
{
    match trap {
        TrapType::Time => {
            MicroKernelTask::check_timeouts(kernel, now);
        },
        TrapType::InstructionPageFault(vaddr) => {
            record_fault(kernel, current, vaddr, PageFaultReason::exec());
        },
        TrapType::StorePageFault(vaddr) => {
            record_fault(kernel, current, vaddr, PageFaultReason::write());
        },
        TrapType::LoadPageFault(vaddr) => {
            record_fault(kernel, current, vaddr, PageFaultReason::read());
        },
        TrapType::Irq(line) => {
            MicroKernelTask::deliver_irq(kernel, line);
        },
        _ => {},
    }
}

/// Records a page fault for the task that runs, if one does.
pub fn record_fault(kernel: &mut Kernel, current: Option<usize>, vaddr: usize, reason: PageFaultReason)
    requires
        old(kernel).wf(),
    ensures
        final(kernel).wf(),
        final(kernel)@ == old(kernel)@.fault(current, vaddr, reason),
{
    match current {
        Some(tid) => {
            if tid >= 1 && tid <= kernel.tasks.len() {
                let base = kernel.kernel_base;
                proof {
                    assert(kernel@.task_ok(tid));
                    lemma_update_wf(kernel@, tid, kernel@.task(tid).set_fault(vaddr, reason, base));
                }
                kernel.tasks[tid - 1].set_fault(vaddr, reason, base);
                proof {
                    assert(kernel@.tasks =~= old(kernel)@.fault(current, vaddr, reason).tasks);
                }
            }
        },
        None => {},
    }
}

} // verus!
