use microkernel::abi::{
    ExceptionType, MessageSource, MessageType, SysCall, SysCallError, FROM_KERNEL, IPC_ANY, NAME_LEN,
    VM_SERVER,
};
use microkernel::flags::{IPCFlags, PMAllocFlags, PageFaultReason};
use microkernel::message::{Message, MessageContent};

#[test]
fn system_call_numbers() {
    assert_eq!(usize::from(SysCall::IPC), 1);
    assert_eq!(usize::from(SysCall::Notify), 2);
    assert_eq!(usize::from(SysCall::SerialWrite), 3);
    assert_eq!(usize::from(SysCall::SerialRead), 4);
    assert_eq!(usize::from(SysCall::TaskCreate), 5);
    assert_eq!(usize::from(SysCall::TaskDestory), 6);
    assert_eq!(usize::from(SysCall::TaskExit), 7);
    assert_eq!(usize::from(SysCall::TaskSelf), 8);
    assert_eq!(usize::from(SysCall::PMAlloc), 9);
    assert_eq!(usize::from(SysCall::VMMap), 10);
    assert_eq!(usize::from(SysCall::VMUnmap), 11);
    assert_eq!(usize::from(SysCall::IrqListen), 12);
    assert_eq!(usize::from(SysCall::IrqUnlisten), 13);
    assert_eq!(usize::from(SysCall::Time), 14);
    assert_eq!(usize::from(SysCall::UPTime), 15);
    assert_eq!(usize::from(SysCall::HinaVM), 16);
    assert_eq!(usize::from(SysCall::Shutdown), 17);
    assert_eq!(usize::from(SysCall::TransVAddr), 18);
}

#[test]
fn system_call_of_a_number() {
    assert_eq!(SysCall::try_from(1), Ok(SysCall::IPC));
    assert_eq!(SysCall::try_from(14), Ok(SysCall::Time));
    assert_eq!(SysCall::try_from(18), Ok(SysCall::TransVAddr));
    assert_eq!(SysCall::try_from(0), Err(0));
    assert_eq!(SysCall::try_from(19), Err(19));
    for id in 1..=18usize {
        assert_eq!(usize::from(SysCall::try_from(id).unwrap()), id);
    }
}

#[test]
fn error_codes() {
    assert_eq!(isize::from(SysCallError::NoMemory), -1);
    assert_eq!(isize::from(SysCallError::NoResources), -2);
    assert_eq!(isize::from(SysCallError::NotSupported), -9);
    assert_eq!(isize::from(SysCallError::InvalidArg), -11);
    assert_eq!(isize::from(SysCallError::InvalidTask), -12);
    assert_eq!(isize::from(SysCallError::InvalidSyscall), -13);
    assert_eq!(isize::from(SysCallError::InvalidPaddr), -14);
    assert_eq!(isize::from(SysCallError::InvalidUaddr), -15);
    assert_eq!(isize::from(SysCallError::TooManyTasks), -16);
    assert_eq!(isize::from(SysCallError::TooLarge), -17);
    assert_eq!(isize::from(SysCallError::TooSmall), -18);
    assert_eq!(isize::from(SysCallError::WouldBlock), -19);
    assert_eq!(isize::from(SysCallError::TryAgain), -20);
    assert_eq!(isize::from(SysCallError::Aborted), -21);
    assert_eq!(isize::from(SysCallError::Empty), -22);
    assert_eq!(isize::from(SysCallError::NotEmpty), -23);
    assert_eq!(isize::from(SysCallError::DeadLock), -24);
    assert_eq!(isize::from(SysCallError::Others), -29);
}

#[test]
fn error_of_a_code() {
    for code in -29..=-1isize {
        assert_eq!(isize::from(SysCallError::from(code)), code);
    }
    assert_eq!(SysCallError::from(-24), SysCallError::DeadLock);
    assert_eq!(SysCallError::from(0), SysCallError::Others);
    assert_eq!(SysCallError::from(-30), SysCallError::Others);
    assert_eq!(SysCallError::from(7), SysCallError::Others);
}

#[test]
fn error_as_a_word_is_the_code_in_twos_complement() {
    assert_eq!(SysCallError::NoMemory.as_word(), usize::MAX);
    assert_eq!(SysCallError::InvalidArg.as_word(), (-11isize) as usize);
    assert_eq!(SysCallError::DeadLock.as_word() as isize, -24);
}

#[test]
fn reserved_ids() {
    assert_eq!(IPC_ANY, 0);
    assert_eq!(FROM_KERNEL, usize::MAX);
    assert_eq!(VM_SERVER, 1);
    assert_eq!(NAME_LEN, 64);
    assert_eq!(MessageSource::Kernel.as_id(), usize::MAX);
    assert_eq!(MessageSource::VMWare.as_id(), 1);
}

#[test]
fn message_type_numbers() {
    assert_eq!(MessageType::ExceptionMsg.as_number(), 1);
    assert_eq!(MessageType::PageFaultMsg.as_number(), 2);
    assert_eq!(MessageType::PingMsg.as_number(), 9);
    assert_eq!(MessageType::FsReaddirReplyMsg.as_number(), 44);
    assert_eq!(MessageType::TcpipClosedmsg.as_number(), 62);
    assert_ne!(ExceptionType::GraceExit, ExceptionType::InvalidPagerReply);
}

#[test]
fn ipc_flag_bits() {
    assert_eq!(IPCFlags::send().bits(), 1 << 16);
    assert_eq!(IPCFlags::recv().bits(), 1 << 17);
    assert_eq!(IPCFlags::non_block().bits(), 1 << 18);
    assert_eq!(IPCFlags::kernel().bits(), 1 << 19);
    assert_eq!(IPCFlags::call(), IPCFlags::send() | IPCFlags::recv());
    assert_eq!(IPCFlags::call().bits(), 0x30000);
    assert!(IPCFlags::call().contains(IPCFlags::send()));
    assert!(IPCFlags::call().is_recv());
    assert!(!IPCFlags::call().is_non_block());
    assert!(IPCFlags::empty().is_empty());
}

#[test]
fn ipc_flags_of_a_word() {
    assert_eq!(IPCFlags::from_bits(0x50000), Some(IPCFlags::send().union(IPCFlags::non_block())));
    assert_eq!(IPCFlags::from_bits(0), Some(IPCFlags::empty()));
    assert_eq!(IPCFlags::from_bits(1), None);
    assert_eq!(IPCFlags::from_bits(0x100000), None);
    assert_eq!(IPCFlags::from_bits(0x30001), None);
}

#[test]
fn page_fault_reason_bits() {
    assert_eq!(PageFaultReason::read().bits(), 1);
    assert_eq!(PageFaultReason::write().bits(), 2);
    assert_eq!(PageFaultReason::exec().bits(), 4);
    assert_eq!(PageFaultReason::user().bits(), 8);
    assert_eq!(PageFaultReason::present().bits(), 16);
    assert_eq!(PageFaultReason::from_bits(32), None);
    assert!((PageFaultReason::read() | PageFaultReason::user()).is_user());
    assert!(!(PageFaultReason::read() | PageFaultReason::user()).is_write());
}

#[test]
fn pm_alloc_flag_bits() {
    assert_eq!(PMAllocFlags::uninitialized().bits(), 1);
    assert_eq!(PMAllocFlags::zerod().bits(), 2);
    assert_eq!(PMAllocFlags::aligned().bits(), 4);
    assert_eq!(PMAllocFlags::from_bits(8), None);
    assert_eq!(PMAllocFlags::from_bits(7).unwrap().bits(), 7);
}

#[test]
fn blank_message() {
    let m = Message::blank();
    assert_eq!(m.source, 0);
    assert_eq!(m.content, MessageContent::Nothing);
}
