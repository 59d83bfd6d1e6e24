//! The numbers that user space and the kernel agree on: system calls, error
//! codes, reserved task ids and message types.

use vstd::prelude::*;

verus! {

/// The task id that stands for "any sender" in a receive.
pub const IPC_ANY: usize = 0;

/// The source of a message that the kernel itself has written.
pub const FROM_KERNEL: usize = usize::MAX;

/// The task id of the root server.
pub const VM_SERVER: usize = 1;

/// The length of the buffer that carries a service name.
pub const NAME_LEN: usize = 64;

/// The system calls.
#[derive(Debug, Clone, Copy, PartialEq, Eq, Structural)]
pub enum SysCall {
    /// The synchronous message passing.
    IPC,
    /// Posts a notification to a task.
    Notify,
    /// Writes bytes to the serial console.
    SerialWrite,
    /// Reads bytes from the serial console.
    SerialRead,
    /// Creates a task.
    TaskCreate,
    /// Destroys a task.
    TaskDestory,
    /// Ends the calling task.
    TaskExit,
    /// The id of the calling task.
    TaskSelf,
    /// Allocates physical memory.
    PMAlloc,
    /// Maps a page.
    VMMap,
    /// Unmaps a page.
    VMUnmap,
    /// Listens to an interrupt line.
    IrqListen,
    /// Stops listening to an interrupt line.
    IrqUnlisten,
    /// Arms the timeout of the calling task.
    Time,
    /// The time since boot.
    UPTime,
    /// Reserved.
    HinaVM,
    /// Switches the machine off.
    Shutdown,
    /// Translates a user address.
    TransVAddr,
}

impl SysCall {
    /// The number of a system call.
    pub open spec fn number(self) -> usize {
        match self {
            SysCall::IPC => 1,
            SysCall::Notify => 2,
            SysCall::SerialWrite => 3,
            SysCall::SerialRead => 4,
            SysCall::TaskCreate => 5,
            SysCall::TaskDestory => 6,
            SysCall::TaskExit => 7,
            SysCall::TaskSelf => 8,
            SysCall::PMAlloc => 9,
            SysCall::VMMap => 10,
            SysCall::VMUnmap => 11,
            SysCall::IrqListen => 12,
            SysCall::IrqUnlisten => 13,
            SysCall::Time => 14,
            SysCall::UPTime => 15,
            SysCall::HinaVM => 16,
            SysCall::Shutdown => 17,
            SysCall::TransVAddr => 18,
        }
    }

    /// The system call with a given number, if one has it.
    pub open spec fn of_number(id: usize) -> Option<SysCall> {
        if id == 1 {
            Some(SysCall::IPC)
        } else if id == 2 {
            Some(SysCall::Notify)
        } else if id == 3 {
            Some(SysCall::SerialWrite)
        } else if id == 4 {
            Some(SysCall::SerialRead)
        } else if id == 5 {
            Some(SysCall::TaskCreate)
        } else if id == 6 {
            Some(SysCall::TaskDestory)
        } else if id == 7 {
            Some(SysCall::TaskExit)
        } else if id == 8 {
            Some(SysCall::TaskSelf)
        } else if id == 9 {
            Some(SysCall::PMAlloc)
        } else if id == 10 {
            Some(SysCall::VMMap)
        } else if id == 11 {
            Some(SysCall::VMUnmap)
        } else if id == 12 {
            Some(SysCall::IrqListen)
        } else if id == 13 {
            Some(SysCall::IrqUnlisten)
        } else if id == 14 {
            Some(SysCall::Time)
        } else if id == 15 {
            Some(SysCall::UPTime)
        } else if id == 16 {
            Some(SysCall::HinaVM)
        } else if id == 17 {
            Some(SysCall::Shutdown)
        } else if id == 18 {
            Some(SysCall::TransVAddr)
        } else {
            None
        }
    }

    /// The system call with a given number, or the number back where none has it.
    pub fn try_from(id: usize) -> (r: Result<SysCall, usize>)
        ensures
            match r {
                Ok(call) => call.number() == id && SysCall::of_number(id) == Some(call),
                Err(n) => n == id && SysCall::of_number(id) is None && forall|call: SysCall|
                    call.number() != id,
            },
            (1 <= id <= 18) == (r is Ok),
    {
        if id == 1 {
            Ok(SysCall::IPC)
        } else if id == 2 {
            Ok(SysCall::Notify)
        } else if id == 3 {
            Ok(SysCall::SerialWrite)
        } else if id == 4 {
            Ok(SysCall::SerialRead)
        } else if id == 5 {
            Ok(SysCall::TaskCreate)
        } else if id == 6 {
            Ok(SysCall::TaskDestory)
        } else if id == 7 {
            Ok(SysCall::TaskExit)
        } else if id == 8 {
            Ok(SysCall::TaskSelf)
        } else if id == 9 {
            Ok(SysCall::PMAlloc)
        } else if id == 10 {
            Ok(SysCall::VMMap)
        } else if id == 11 {
            Ok(SysCall::VMUnmap)
        } else if id == 12 {
            Ok(SysCall::IrqListen)
        } else if id == 13 {
            Ok(SysCall::IrqUnlisten)
        } else if id == 14 {
            Ok(SysCall::Time)
        } else if id == 15 {
            Ok(SysCall::UPTime)
        } else if id == 16 {
            Ok(SysCall::HinaVM)
        } else if id == 17 {
            Ok(SysCall::Shutdown)
        } else if id == 18 {
            Ok(SysCall::TransVAddr)
        } else {
            Err(id)
        }
    }
}

impl From<SysCall> for usize {
    /// The number of a system call.
    fn from(value: SysCall) -> (r: usize) {
        match value {
            SysCall::IPC => 1,
            SysCall::Notify => 2,
            SysCall::SerialWrite => 3,
            SysCall::SerialRead => 4,
            SysCall::TaskCreate => 5,
            SysCall::TaskDestory => 6,
            SysCall::TaskExit => 7,
            SysCall::TaskSelf => 8,
            SysCall::PMAlloc => 9,
            SysCall::VMMap => 10,
            SysCall::VMUnmap => 11,
            SysCall::IrqListen => 12,
            SysCall::IrqUnlisten => 13,
            SysCall::Time => 14,
            SysCall::UPTime => 15,
            SysCall::HinaVM => 16,
            SysCall::Shutdown => 17,
            SysCall::TransVAddr => 18,
        }
    }
}

impl vstd::std_specs::convert::FromSpecImpl<SysCall> for usize {
    open spec fn obeys_from_spec() -> bool {
        true
    }

    open spec fn from_spec(v: SysCall) -> usize {
        v.number()
    }
}

/// The errors of system calls. User space sees each as a negative number.
#[derive(Debug, Clone, Copy, PartialEq, Eq, Structural)]
pub enum SysCallError {
    /// Out of memory.
    NoMemory,
    /// Not enough resources.
    NoResources,
    /// Exists already.
    AlreadyExists,
    /// In use already.
    AlreadyUsed,
    /// Done already.
    AlreadyDone,
    /// Still in use.
    StillUsed,
    /// Not found.
    NotFound,
    /// Not allowed.
    NotAllowed,
    /// Not supported.
    NotSupported,
    /// An unexpected value or situation.
    Unexpected,
    /// An invalid argument.
    InvalidArg,
    /// An invalid task id.
    InvalidTask,
    /// An invalid system call number.
    InvalidSyscall,
    /// An invalid physical address.
    InvalidPaddr,
    /// An invalid user address.
    InvalidUaddr,
    /// Too many tasks.
    TooManyTasks,
    /// Too large.
    TooLarge,
    /// Too small.
    TooSmall,
    /// The call would block.
    WouldBlock,
    /// Failed for now: a retry may succeed.
    TryAgain,
    /// A peer was destroyed.
    Aborted,
    /// Empty.
    Empty,
    /// Not empty.
    NotEmpty,
    /// The call would deadlock.
    DeadLock,
    /// Not a file.
    NotAFile,
    /// Not a directory.
    NotADir,
    /// The end of a file.
    EOF,
    /// The last error code.
    END,
    /// Any other code.
    Others,
}

impl SysCallError {
    /// The code of an error.
    pub open spec fn code(self) -> int {
        match self {
            SysCallError::NoMemory => -1,
            SysCallError::NoResources => -2,
            SysCallError::AlreadyExists => -3,
            SysCallError::AlreadyUsed => -4,
            SysCallError::AlreadyDone => -5,
            SysCallError::StillUsed => -6,
            SysCallError::NotFound => -7,
            SysCallError::NotAllowed => -8,
            SysCallError::NotSupported => -9,
            SysCallError::Unexpected => -10,
            SysCallError::InvalidArg => -11,
            SysCallError::InvalidTask => -12,
            SysCallError::InvalidSyscall => -13,
            SysCallError::InvalidPaddr => -14,
            SysCallError::InvalidUaddr => -15,
            SysCallError::TooManyTasks => -16,
            SysCallError::TooLarge => -17,
            SysCallError::TooSmall => -18,
            SysCallError::WouldBlock => -19,
            SysCallError::TryAgain => -20,
            SysCallError::Aborted => -21,
            SysCallError::Empty => -22,
            SysCallError::NotEmpty => -23,
            SysCallError::DeadLock => -24,
            SysCallError::NotAFile => -25,
            SysCallError::NotADir => -26,
            SysCallError::EOF => -27,
            SysCallError::END => -28,
            SysCallError::Others => -29,
        }
    }

    /// The error that a code stands for; a code that no error has stands for `Others`.
    pub open spec fn of_code(code: isize) -> SysCallError {
        if code == -1 {
            SysCallError::NoMemory
        } else if code == -2 {
            SysCallError::NoResources
        } else if code == -3 {
            SysCallError::AlreadyExists
        } else if code == -4 {
            SysCallError::AlreadyUsed
        } else if code == -5 {
            SysCallError::AlreadyDone
        } else if code == -6 {
            SysCallError::StillUsed
        } else if code == -7 {
            SysCallError::NotFound
        } else if code == -8 {
            SysCallError::NotAllowed
        } else if code == -9 {
            SysCallError::NotSupported
        } else if code == -10 {
            SysCallError::Unexpected
        } else if code == -11 {
            SysCallError::InvalidArg
        } else if code == -12 {
            SysCallError::InvalidTask
        } else if code == -13 {
            SysCallError::InvalidSyscall
        } else if code == -14 {
            SysCallError::InvalidPaddr
        } else if code == -15 {
            SysCallError::InvalidUaddr
        } else if code == -16 {
            SysCallError::TooManyTasks
        } else if code == -17 {
            SysCallError::TooLarge
        } else if code == -18 {
            SysCallError::TooSmall
        } else if code == -19 {
            SysCallError::WouldBlock
        } else if code == -20 {
            SysCallError::TryAgain
        } else if code == -21 {
            SysCallError::Aborted
        } else if code == -22 {
            SysCallError::Empty
        } else if code == -23 {
            SysCallError::NotEmpty
        } else if code == -24 {
            SysCallError::DeadLock
        } else if code == -25 {
            SysCallError::NotAFile
        } else if code == -26 {
            SysCallError::NotADir
        } else if code == -27 {
            SysCallError::EOF
        } else if code == -28 {
            SysCallError::END
        } else {
            SysCallError::Others
        }
    }

    /// The word that a system call returns for an error: the code in two's complement.
    pub open spec fn word(self) -> usize {
        (usize::MAX + 1 + self.code()) as usize
    }

    /// The word that a system call returns for this error.
    pub fn as_word(self) -> (r: usize)
        ensures
            r == self.word(),
    {
        let code: isize = isize::from(self);
        let below: usize = (-(code + 1)) as usize;
        usize::MAX - below
    }

    /// Every error is the one that its own code stands for.
    pub proof fn lemma_code_round_trip(self)
        ensures
            SysCallError::of_code(self.code() as isize) == self,
            -29 <= self.code() <= -1,
    {
    }
}

impl From<SysCallError> for isize {
    /// The code of an error.
    fn from(value: SysCallError) -> (r: isize) {
        match value {
            SysCallError::NoMemory => -1,
            SysCallError::NoResources => -2,
            SysCallError::AlreadyExists => -3,
            SysCallError::AlreadyUsed => -4,
            SysCallError::AlreadyDone => -5,
            SysCallError::StillUsed => -6,
            SysCallError::NotFound => -7,
            SysCallError::NotAllowed => -8,
            SysCallError::NotSupported => -9,
            SysCallError::Unexpected => -10,
            SysCallError::InvalidArg => -11,
            SysCallError::InvalidTask => -12,
            SysCallError::InvalidSyscall => -13,
            SysCallError::InvalidPaddr => -14,
            SysCallError::InvalidUaddr => -15,
            SysCallError::TooManyTasks => -16,
            SysCallError::TooLarge => -17,
            SysCallError::TooSmall => -18,
            SysCallError::WouldBlock => -19,
            SysCallError::TryAgain => -20,
            SysCallError::Aborted => -21,
            SysCallError::Empty => -22,
            SysCallError::NotEmpty => -23,
            SysCallError::DeadLock => -24,
            SysCallError::NotAFile => -25,
            SysCallError::NotADir => -26,
            SysCallError::EOF => -27,
            SysCallError::END => -28,
            SysCallError::Others => -29,
        }
    }
}

impl vstd::std_specs::convert::FromSpecImpl<SysCallError> for isize {
    open spec fn obeys_from_spec() -> bool {
        true
    }

    open spec fn from_spec(v: SysCallError) -> isize {
        v.code() as isize
    }
}

impl From<isize> for SysCallError {
    /// The error that a code stands for.
    fn from(value: isize) -> (r: SysCallError) {
        if value == -1 {
            SysCallError::NoMemory
        } else if value == -2 {
            SysCallError::NoResources
        } else if value == -3 {
            SysCallError::AlreadyExists
        } else if value == -4 {
            SysCallError::AlreadyUsed
        } else if value == -5 {
            SysCallError::AlreadyDone
        } else if value == -6 {
            SysCallError::StillUsed
        } else if value == -7 {
            SysCallError::NotFound
        } else if value == -8 {
            SysCallError::NotAllowed
        } else if value == -9 {
            SysCallError::NotSupported
        } else if value == -10 {
            SysCallError::Unexpected
        } else if value == -11 {
            SysCallError::InvalidArg
        } else if value == -12 {
            SysCallError::InvalidTask
        } else if value == -13 {
            SysCallError::InvalidSyscall
        } else if value == -14 {
            SysCallError::InvalidPaddr
        } else if value == -15 {
            SysCallError::InvalidUaddr
        } else if value == -16 {
            SysCallError::TooManyTasks
        } else if value == -17 {
            SysCallError::TooLarge
        } else if value == -18 {
            SysCallError::TooSmall
        } else if value == -19 {
            SysCallError::WouldBlock
        } else if value == -20 {
            SysCallError::TryAgain
        } else if value == -21 {
            SysCallError::Aborted
        } else if value == -22 {
            SysCallError::Empty
        } else if value == -23 {
            SysCallError::NotEmpty
        } else if value == -24 {
            SysCallError::DeadLock
        } else if value == -25 {
            SysCallError::NotAFile
        } else if value == -26 {
            SysCallError::NotADir
        } else if value == -27 {
            SysCallError::EOF
        } else if value == -28 {
            SysCallError::END
        } else {
            SysCallError::Others
        }
    }
}

impl vstd::std_specs::convert::FromSpecImpl<isize> for SysCallError {
    open spec fn obeys_from_spec() -> bool {
        true
    }

    open spec fn from_spec(v: isize) -> SysCallError {
        SysCallError::of_code(v)
    }
}

/// The kinds of messages, by number.
#[derive(Debug, Clone, Copy, PartialEq, Eq, Structural)]
pub enum MessageType {
    ExceptionMsg,
    PageFaultMsg,
    PageFaultReplyMsg,
    NotifyMsg,
    NotifyIrqMsg,
    NotifyTimerMsg,
    AsyncRecvMsg,
    AsyncRecvReplyMsg,
    PingMsg,
    PingReplyMsg,
    SpawnTaskMsg,
    SpawnTaskReplyMsg,
    DestroyTaskMsg,
    DestroyTaskReplyMsg,
    ServiceLookupMsg,
    ServiceLookupReplyMsg,
    ServiceRegisterMsg,
    ServiceRegisterReplyMsg,
    WatchTasksMsg,
    WatchTasksReplyMsg,
    TaskDestroyedMsg,
    VmMapPhysicalMsg,
    VmMapPhysicalReplyMsg,
    VmAllocPhysicalMsg,
    VmAllocPhysicalReplyMsg,
    BlkReadMsg,
    BlkReadReplyMsg,
    BlkWriteMsg,
    BlkWriteReplyMsg,
    NetOpenMsg,
    NetOpenReplyMsg,
    NetRecvMsg,
    NetSendMsg,
    NetSendReplyMsg,
    FsOpenMsg,
    FsOpenReplyMsg,
    FsCloseMsg,
    FsCloseReplyMsg,
    FsReadMsg,
    FsReadReplyMsg,
    FsWriteMsg,
    FsWriteReplyMsg,
    FsReaddirMsg,
    FsReaddirReplyMsg,
    FsMkfileMsg,
    FsMkfileReplyMsg,
    FsMkdirMsg,
    FsMkdirReplyMsg,
    FsDeleteMsg,
    FsDeleteReplyMsg,
    TcpipConnectMsg,
    TcpipConnectReplyMsg,
    TcpipCloseMsg,
    TcpipCloseReplyMsg,
    TcpipWriteMsg,
    TcpipWriteReplyMsg,
    TcpipReadMsg,
    TcpipReadReplyMsg,
    TcpipDnsResolveMsg,
    TcpipDnsResolveReplyMsg,
    TcpipDataMsg,
    TcpipClosedmsg,
}

impl MessageType {
    /// The number of a kind of message.
    pub open spec fn number(self) -> usize {
        match self {
            MessageType::ExceptionMsg => 1,
            MessageType::PageFaultMsg => 2,
            MessageType::PageFaultReplyMsg => 3,
            MessageType::NotifyMsg => 4,
            MessageType::NotifyIrqMsg => 5,
            MessageType::NotifyTimerMsg => 6,
            MessageType::AsyncRecvMsg => 7,
            MessageType::AsyncRecvReplyMsg => 8,
            MessageType::PingMsg => 9,
            MessageType::PingReplyMsg => 10,
            MessageType::SpawnTaskMsg => 11,
            MessageType::SpawnTaskReplyMsg => 12,
            MessageType::DestroyTaskMsg => 13,
            MessageType::DestroyTaskReplyMsg => 14,
            MessageType::ServiceLookupMsg => 15,
            MessageType::ServiceLookupReplyMsg => 16,
            MessageType::ServiceRegisterMsg => 17,
            MessageType::ServiceRegisterReplyMsg => 18,
            MessageType::WatchTasksMsg => 19,
            MessageType::WatchTasksReplyMsg => 20,
            MessageType::TaskDestroyedMsg => 21,
            MessageType::VmMapPhysicalMsg => 22,
            MessageType::VmMapPhysicalReplyMsg => 23,
            MessageType::VmAllocPhysicalMsg => 24,
            MessageType::VmAllocPhysicalReplyMsg => 25,
            MessageType::BlkReadMsg => 26,
            MessageType::BlkReadReplyMsg => 27,
            MessageType::BlkWriteMsg => 28,
            MessageType::BlkWriteReplyMsg => 29,
            MessageType::NetOpenMsg => 30,
            MessageType::NetOpenReplyMsg => 31,
            MessageType::NetRecvMsg => 32,
            MessageType::NetSendMsg => 33,
            MessageType::NetSendReplyMsg => 34,
            MessageType::FsOpenMsg => 35,
            MessageType::FsOpenReplyMsg => 36,
            MessageType::FsCloseMsg => 37,
            MessageType::FsCloseReplyMsg => 38,
            MessageType::FsReadMsg => 39,
            MessageType::FsReadReplyMsg => 40,
            MessageType::FsWriteMsg => 41,
            MessageType::FsWriteReplyMsg => 42,
            MessageType::FsReaddirMsg => 43,
            MessageType::FsReaddirReplyMsg => 44,
            MessageType::FsMkfileMsg => 45,
            MessageType::FsMkfileReplyMsg => 46,
            MessageType::FsMkdirMsg => 47,
            MessageType::FsMkdirReplyMsg => 48,
            MessageType::FsDeleteMsg => 49,
            MessageType::FsDeleteReplyMsg => 50,
            MessageType::TcpipConnectMsg => 51,
            MessageType::TcpipConnectReplyMsg => 52,
            MessageType::TcpipCloseMsg => 53,
            MessageType::TcpipCloseReplyMsg => 54,
            MessageType::TcpipWriteMsg => 55,
            MessageType::TcpipWriteReplyMsg => 56,
            MessageType::TcpipReadMsg => 57,
            MessageType::TcpipReadReplyMsg => 58,
            MessageType::TcpipDnsResolveMsg => 59,
            MessageType::TcpipDnsResolveReplyMsg => 60,
            MessageType::TcpipDataMsg => 61,
            MessageType::TcpipClosedmsg => 62,
        }
    }

    /// The number of this kind of message.
    pub fn as_number(self) -> (r: usize)
        ensures
            r == self.number(),
            1 <= r <= 62,
    {
        match self {
            MessageType::ExceptionMsg => 1,
            MessageType::PageFaultMsg => 2,
            MessageType::PageFaultReplyMsg => 3,
            MessageType::NotifyMsg => 4,
            MessageType::NotifyIrqMsg => 5,
            MessageType::NotifyTimerMsg => 6,
            MessageType::AsyncRecvMsg => 7,
            MessageType::AsyncRecvReplyMsg => 8,
            MessageType::PingMsg => 9,
            MessageType::PingReplyMsg => 10,
            MessageType::SpawnTaskMsg => 11,
            MessageType::SpawnTaskReplyMsg => 12,
            MessageType::DestroyTaskMsg => 13,
            MessageType::DestroyTaskReplyMsg => 14,
            MessageType::ServiceLookupMsg => 15,
            MessageType::ServiceLookupReplyMsg => 16,
            MessageType::ServiceRegisterMsg => 17,
            MessageType::ServiceRegisterReplyMsg => 18,
            MessageType::WatchTasksMsg => 19,
            MessageType::WatchTasksReplyMsg => 20,
            MessageType::TaskDestroyedMsg => 21,
            MessageType::VmMapPhysicalMsg => 22,
            MessageType::VmMapPhysicalReplyMsg => 23,
            MessageType::VmAllocPhysicalMsg => 24,
            MessageType::VmAllocPhysicalReplyMsg => 25,
            MessageType::BlkReadMsg => 26,
            MessageType::BlkReadReplyMsg => 27,
            MessageType::BlkWriteMsg => 28,
            MessageType::BlkWriteReplyMsg => 29,
            MessageType::NetOpenMsg => 30,
            MessageType::NetOpenReplyMsg => 31,
            MessageType::NetRecvMsg => 32,
            MessageType::NetSendMsg => 33,
            MessageType::NetSendReplyMsg => 34,
            MessageType::FsOpenMsg => 35,
            MessageType::FsOpenReplyMsg => 36,
            MessageType::FsCloseMsg => 37,
            MessageType::FsCloseReplyMsg => 38,
            MessageType::FsReadMsg => 39,
            MessageType::FsReadReplyMsg => 40,
            MessageType::FsWriteMsg => 41,
            MessageType::FsWriteReplyMsg => 42,
            MessageType::FsReaddirMsg => 43,
            MessageType::FsReaddirReplyMsg => 44,
            MessageType::FsMkfileMsg => 45,
            MessageType::FsMkfileReplyMsg => 46,
            MessageType::FsMkdirMsg => 47,
            MessageType::FsMkdirReplyMsg => 48,
            MessageType::FsDeleteMsg => 49,
            MessageType::FsDeleteReplyMsg => 50,
            MessageType::TcpipConnectMsg => 51,
            MessageType::TcpipConnectReplyMsg => 52,
            MessageType::TcpipCloseMsg => 53,
            MessageType::TcpipCloseReplyMsg => 54,
            MessageType::TcpipWriteMsg => 55,
            MessageType::TcpipWriteReplyMsg => 56,
            MessageType::TcpipReadMsg => 57,
            MessageType::TcpipReadReplyMsg => 58,
            MessageType::TcpipDnsResolveMsg => 59,
            MessageType::TcpipDnsResolveReplyMsg => 60,
            MessageType::TcpipDataMsg => 61,
            MessageType::TcpipClosedmsg => 62,
        }
    }
}

/// Why a task was ended.
#[derive(Debug, Clone, Copy, PartialEq, Eq, Structural)]
pub enum ExceptionType {
    /// The task asked to end.
    GraceExit,
    /// The task used an address that cannot be served.
    InvalidAddr,
    /// The pager answered a page fault with something else than its reply.
    InvalidPagerReply,
    /// The task ran an instruction that it may not run.
    IllegalException,
}

/// Who a message comes from, where it is no ordinary task.
#[derive(Debug, Clone, Copy, PartialEq, Eq, Structural)]
pub enum MessageSource {
    /// The kernel.
    Kernel,
    /// The root server.
    VMWare,
}

impl MessageSource {
    /// The task id that stands for this source.
    pub open spec fn id(self) -> usize {
        match self {
            MessageSource::Kernel => FROM_KERNEL,
            MessageSource::VMWare => VM_SERVER,
        }
    }

    /// The task id that stands for this source.
    pub fn as_id(self) -> (r: usize)
        ensures
            r == self.id(),
    {
        match self {
            MessageSource::Kernel => FROM_KERNEL,
            MessageSource::VMWare => VM_SERVER,
        }
    }
}

} // verus!
