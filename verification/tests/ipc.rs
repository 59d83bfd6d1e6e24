use microkernel::abi::{SysCallError, FROM_KERNEL, IPC_ANY};
use microkernel::driver::{interrupt_handler, RunStep, TrapType};
use microkernel::flags::{IPCFlags, PageFaultReason};
use microkernel::kernel::Kernel;
use microkernel::message::{Message, MessageContent};
use microkernel::model::IpcStep;
use microkernel::notify::{Notify, NotifyEnum};
use microkernel::pager::handle_page_fault;
use microkernel::task::{MicroKernelTask, Pending, TaskState};

const SEND: usize = 1 << 16;
const RECV: usize = 1 << 17;
const NON_BLOCK: usize = 1 << 18;
const KERNEL: usize = 1 << 19;
const CALL: usize = SEND | RECV;
const BASE: usize = 0xffff_ffc0_0000_0000;

fn kernel_with(tasks: usize) -> Kernel {
    let mut kernel = Kernel::new(16, BASE);
    kernel.add_memory(0x8000_0000, 0x8100_0000, 0);
    for i in 0..tasks {
        let pager = if i == 0 { None } else { Some(1) };
        assert_eq!(MicroKernelTask::new(&mut kernel, "task", 0x1000, pager), Ok(i + 1));
    }
    kernel
}

fn message(content: MessageContent) -> Message {
    let mut m = Message::blank();
    m.content = content;
    m
}

#[test]
fn rendezvous() {
    let mut kernel = kernel_with(3);
    let mut msg_a = message(MessageContent::PingMsg(17));
    let mut msg_b = Message::blank();
    assert_eq!(MicroKernelTask::sys_ipc(&mut kernel, 2, 3, 3, &mut msg_a, CALL), IpcStep::Blocked);
    assert_eq!(kernel.tasks[1].state, TaskState::Blocked);
    assert_eq!(kernel.tasks[2].senders, vec![2]);
    assert_eq!(kernel.tasks[1].wait_for, None);
    assert_eq!(kernel.tasks[1].message, None);
    assert_eq!(MicroKernelTask::sys_ipc(&mut kernel, 3, 0, 0, &mut msg_b, RECV), IpcStep::Blocked);
    assert_eq!(kernel.tasks[2].wait_for, Some(2));
    assert!(kernel.tasks[2].senders.is_empty());
    assert_eq!(kernel.tasks[1].state, TaskState::Runable);
    assert_eq!(MicroKernelTask::ipc_resume(&mut kernel, 3, &mut msg_b), IpcStep::Blocked);
    assert_eq!(MicroKernelTask::ipc_resume(&mut kernel, 2, &mut msg_a), IpcStep::Blocked);
    assert_eq!(kernel.tasks[1].wait_for, Some(3));
    assert_eq!(MicroKernelTask::ipc_resume(&mut kernel, 3, &mut msg_b), IpcStep::Done(Ok(0)));
    assert_eq!(msg_b.source, 2);
    assert_eq!(msg_b.content, MessageContent::PingMsg(17));
    assert_eq!(kernel.tasks[2].message, None);
    assert_eq!(kernel.tasks[2].wait_for, None);
    msg_b.content = MessageContent::PingReplyMsg(42);
    assert_eq!(
        MicroKernelTask::sys_ipc(&mut kernel, 3, 2, 0, &mut msg_b, SEND | NON_BLOCK),
        IpcStep::Done(Ok(0))
    );
    assert_eq!(MicroKernelTask::ipc_resume(&mut kernel, 2, &mut msg_a), IpcStep::Done(Ok(0)));
    assert_eq!(msg_a.source, 3);
    assert_eq!(msg_a.content, MessageContent::PingReplyMsg(42));
    assert_eq!(kernel.tasks[1].state, TaskState::Runable);
    assert_eq!(kernel.tasks[1].message, None);
}

#[test]
fn non_block_on_empty_receive() {
    let mut kernel = kernel_with(1);
    let mut msg = Message::blank();
    assert_eq!(
        MicroKernelTask::sys_ipc(&mut kernel, 1, 0, 0, &mut msg, RECV | NON_BLOCK),
        IpcStep::Done(Err(SysCallError::WouldBlock))
    );
    assert_eq!(kernel.tasks[0].state, TaskState::Runable);
    assert_eq!(kernel.tasks[0].wait_for, None);
    assert_eq!(msg, Message::blank());
}

#[test]
fn deadlock_detection() {
    let mut kernel = kernel_with(3);
    let mut msg_a = message(MessageContent::PingMsg(1));
    let mut msg_b = message(MessageContent::PingMsg(2));
    assert_eq!(MicroKernelTask::sys_ipc(&mut kernel, 3, 2, 0, &mut msg_b, SEND), IpcStep::Blocked);
    assert_eq!(kernel.tasks[1].senders, vec![3]);
    assert_eq!(
        MicroKernelTask::sys_ipc(&mut kernel, 2, 3, 0, &mut msg_a, SEND),
        IpcStep::Done(Err(SysCallError::DeadLock))
    );
    assert_eq!(kernel.tasks[1].state, TaskState::Runable);
    assert!(kernel.tasks[2].senders.is_empty());
    assert_eq!(kernel.tasks[1].senders, vec![3]);
}

#[test]
fn timer_notification_fuses_with_any_receive() {
    let mut kernel = kernel_with(2);
    let mut msg = Message::blank();
    let now = 1_000;
    assert_eq!(MicroKernelTask::sys_time(&mut kernel, 2, now, 50), Ok(0));
    assert_eq!(kernel.tasks[1].timeout, now + 50_000_000);
    assert_eq!(MicroKernelTask::sys_ipc(&mut kernel, 2, 0, 0, &mut msg, RECV), IpcStep::Blocked);
    interrupt_handler(&mut kernel, None, TrapType::Time, now + 49_999_999);
    assert_eq!(MicroKernelTask::ipc_resume(&mut kernel, 2, &mut msg), IpcStep::Blocked);
    assert_eq!(kernel.tasks[1].timeout, now + 50_000_000);
    interrupt_handler(&mut kernel, None, TrapType::Time, now + 50_000_000);
    assert_eq!(kernel.tasks[1].timeout, 0);
    assert_eq!(kernel.tasks[1].state, TaskState::Runable);
    assert_eq!(MicroKernelTask::ipc_resume(&mut kernel, 2, &mut msg), IpcStep::Done(Ok(0)));
    assert_eq!(msg.source, FROM_KERNEL);
    assert_eq!(
        msg.content,
        MessageContent::NotifyField { notications: Notify::from(NotifyEnum::TIMER) }
    );
    assert!(kernel.tasks[1].notifications.is_empty());
}

#[test]
fn abort_on_peer_destroy() {
    let mut kernel = kernel_with(4);
    let mut msg = message(MessageContent::PingMsg(5));
    assert_eq!(MicroKernelTask::sys_ipc(&mut kernel, 2, 3, 0, &mut msg, SEND), IpcStep::Blocked);
    assert_eq!(MicroKernelTask::sys_task_destroy(&mut kernel, 3), Ok(0));
    assert!(kernel.tasks[2].destoryed);
    assert!(kernel.tasks[2].senders.is_empty());
    assert_eq!(kernel.tasks[1].state, TaskState::Runable);
    assert_eq!(
        MicroKernelTask::ipc_resume(&mut kernel, 2, &mut msg),
        IpcStep::Done(Err(SysCallError::Aborted))
    );
    assert!(kernel.tasks[1].notifications.is_empty());
    assert_eq!(kernel.tasks[2].message, None);
    assert_eq!(MicroKernelTask::run(&mut kernel, 3), RunStep::Exit);
    assert!(kernel.tasks[2].pages.is_empty());
}

#[test]
fn page_fault_round_trip() {
    let mut kernel = kernel_with(2);
    let uaddr = 0x1000_0000;
    let mut pager_msg = Message::blank();
    let mut fault_msg = Message::blank();
    assert_eq!(MicroKernelTask::sys_ipc(&mut kernel, 1, 0, 0, &mut pager_msg, RECV), IpcStep::Blocked);
    interrupt_handler(&mut kernel, Some(2), TrapType::LoadPageFault(uaddr), 0);
    let reason = PageFaultReason::read() | PageFaultReason::user();
    assert_eq!(kernel.tasks[1].fault, Some((uaddr, 0x1000, reason)));
    assert_eq!(
        MicroKernelTask::handle_page_fault(&mut kernel, 2, &mut fault_msg),
        Some(IpcStep::Blocked)
    );
    assert_eq!(kernel.tasks[1].wait_for, Some(1));
    assert_eq!(MicroKernelTask::ipc_resume(&mut kernel, 1, &mut pager_msg), IpcStep::Done(Ok(0)));
    assert_eq!(pager_msg.source, FROM_KERNEL);
    assert_eq!(
        pager_msg.content,
        MessageContent::PageFault { tid: 2, uaddr, ip: 0x1000, fault: reason }
    );
    let paddr = MicroKernelTask::sys_pm_alloc(&mut kernel, 1, 2, 4096, 0).unwrap();
    assert_eq!(MicroKernelTask::sys_trans_paddr(&kernel, 2, uaddr), Err(SysCallError::InvalidUaddr));
    assert_eq!(MicroKernelTask::sys_vm_map(&mut kernel, 1, 2, uaddr, paddr, 0), Ok(0));
    pager_msg.content = MessageContent::PageFaultReply;
    assert_eq!(
        MicroKernelTask::sys_ipc(&mut kernel, 1, 2, 0, &mut pager_msg, SEND | NON_BLOCK),
        IpcStep::Done(Ok(0))
    );
    assert_eq!(MicroKernelTask::ipc_resume(&mut kernel, 2, &mut fault_msg), IpcStep::Done(Ok(0)));
    assert_eq!(fault_msg.source, 1);
    assert_eq!(MicroKernelTask::finish_page_fault(&mut kernel, 2, Ok(0), &fault_msg), Ok(()));
    assert_eq!(kernel.tasks[1].fault, None);
    assert!(!kernel.tasks[1].destoryed);
    assert_eq!(MicroKernelTask::run(&mut kernel, 2), RunStep::EnterUser);
    assert_eq!(MicroKernelTask::sys_trans_paddr(&kernel, 2, uaddr + 0x123), Ok(paddr + 0x123));
}

#[test]
fn wrong_pager_reply_ends_the_task() {
    let mut kernel = kernel_with(2);
    let reply = message(MessageContent::PingReplyMsg(1));
    assert_eq!(
        MicroKernelTask::finish_page_fault(&mut kernel, 2, Ok(0), &reply),
        Err(microkernel::abi::ExceptionType::InvalidPagerReply)
    );
    assert!(kernel.tasks[1].destoryed);
    let mut kernel = kernel_with(2);
    let reply = message(MessageContent::PageFaultReply);
    assert_eq!(
        MicroKernelTask::finish_page_fault(&mut kernel, 2, Err(SysCallError::Aborted), &reply),
        Err(microkernel::abi::ExceptionType::InvalidPagerReply)
    );
    assert!(kernel.tasks[1].destoryed);
}

#[test]
fn messages_of_one_sender_arrive_in_order() {
    let mut kernel = kernel_with(3);
    let mut out = Message::blank();
    let mut received = Vec::new();
    for value in [10usize, 20, 30] {
        let mut msg = message(MessageContent::PingMsg(value));
        assert_eq!(MicroKernelTask::sys_ipc(&mut kernel, 2, 3, 0, &mut msg, SEND), IpcStep::Blocked);
        assert_eq!(MicroKernelTask::sys_ipc(&mut kernel, 3, 0, 2, &mut out, RECV), IpcStep::Blocked);
        assert_eq!(MicroKernelTask::ipc_resume(&mut kernel, 2, &mut msg), IpcStep::Done(Ok(0)));
        assert_eq!(MicroKernelTask::ipc_resume(&mut kernel, 3, &mut out), IpcStep::Done(Ok(0)));
        received.push(out.content);
    }
    assert_eq!(
        received,
        vec![MessageContent::PingMsg(10), MessageContent::PingMsg(20), MessageContent::PingMsg(30)]
    );
}

#[test]
fn senders_are_served_in_the_order_of_the_queue() {
    let mut kernel = kernel_with(4);
    let mut m3 = message(MessageContent::PingMsg(3));
    let mut m2 = message(MessageContent::PingMsg(2));
    let mut out = Message::blank();
    assert_eq!(MicroKernelTask::sys_ipc(&mut kernel, 3, 4, 0, &mut m3, SEND), IpcStep::Blocked);
    assert_eq!(MicroKernelTask::sys_ipc(&mut kernel, 2, 4, 0, &mut m2, SEND), IpcStep::Blocked);
    assert_eq!(kernel.tasks[3].senders, vec![3, 2]);
    assert_eq!(MicroKernelTask::sys_ipc(&mut kernel, 4, 0, 0, &mut out, RECV), IpcStep::Blocked);
    assert_eq!(kernel.tasks[3].wait_for, Some(3));
    assert_eq!(kernel.tasks[3].senders, vec![2]);
    assert_eq!(MicroKernelTask::ipc_resume(&mut kernel, 2, &mut m2), IpcStep::Blocked);
    assert_eq!(MicroKernelTask::ipc_resume(&mut kernel, 3, &mut m3), IpcStep::Done(Ok(0)));
    assert_eq!(MicroKernelTask::ipc_resume(&mut kernel, 4, &mut out), IpcStep::Done(Ok(0)));
    assert_eq!((out.source, out.content), (3, MessageContent::PingMsg(3)));
    assert_eq!(MicroKernelTask::sys_ipc(&mut kernel, 4, 0, 2, &mut out, RECV), IpcStep::Blocked);
    assert_eq!(MicroKernelTask::ipc_resume(&mut kernel, 2, &mut m2), IpcStep::Done(Ok(0)));
    assert_eq!(MicroKernelTask::ipc_resume(&mut kernel, 4, &mut out), IpcStep::Done(Ok(0)));
    assert_eq!((out.source, out.content), (2, MessageContent::PingMsg(2)));
}

#[test]
fn receive_from_one_sender_passes_over_the_others() {
    let mut kernel = kernel_with(4);
    let mut m3 = message(MessageContent::PingMsg(3));
    let mut m2 = message(MessageContent::PingMsg(2));
    let mut out = Message::blank();
    assert_eq!(MicroKernelTask::sys_ipc(&mut kernel, 3, 4, 0, &mut m3, SEND), IpcStep::Blocked);
    assert_eq!(MicroKernelTask::sys_ipc(&mut kernel, 2, 4, 0, &mut m2, SEND), IpcStep::Blocked);
    assert_eq!(MicroKernelTask::sys_ipc(&mut kernel, 4, 0, 2, &mut out, RECV), IpcStep::Blocked);
    assert_eq!(kernel.tasks[3].senders, vec![3]);
    assert_eq!(kernel.tasks[2].state, TaskState::Blocked);
    assert_eq!(MicroKernelTask::ipc_resume(&mut kernel, 2, &mut m2), IpcStep::Done(Ok(0)));
    assert_eq!(MicroKernelTask::ipc_resume(&mut kernel, 4, &mut out), IpcStep::Done(Ok(0)));
    assert_eq!((out.source, out.content), (2, MessageContent::PingMsg(2)));
}

#[test]
fn send_to_oneself_or_to_nobody_is_refused() {
    let mut kernel = kernel_with(2);
    let mut msg = message(MessageContent::PingMsg(1));
    assert_eq!(
        MicroKernelTask::sys_ipc(&mut kernel, 2, 2, 0, &mut msg, SEND),
        IpcStep::Done(Err(SysCallError::InvalidArg))
    );
    assert_eq!(
        MicroKernelTask::sys_ipc(&mut kernel, 2, 9, 0, &mut msg, SEND),
        IpcStep::Done(Err(SysCallError::InvalidArg))
    );
    assert_eq!(
        MicroKernelTask::sys_ipc(&mut kernel, 2, 0, 0, &mut msg, SEND),
        IpcStep::Done(Err(SysCallError::InvalidArg))
    );
    assert_eq!(kernel.tasks[0].message, None);
    assert_eq!(kernel.tasks[1].state, TaskState::Runable);
}

#[test]
fn flags_of_a_user_call_are_checked() {
    let mut kernel = kernel_with(2);
    let mut msg = message(MessageContent::PingMsg(1));
    assert_eq!(
        MicroKernelTask::sys_ipc(&mut kernel, 2, 1, 1, &mut msg, CALL | KERNEL),
        IpcStep::Done(Err(SysCallError::InvalidArg))
    );
    assert_eq!(
        MicroKernelTask::sys_ipc(&mut kernel, 2, 1, 1, &mut msg, SEND | 1),
        IpcStep::Done(Err(SysCallError::InvalidArg))
    );
    assert_eq!(
        MicroKernelTask::sys_ipc(&mut kernel, 2, 1, 7, &mut msg, RECV),
        IpcStep::Done(Err(SysCallError::InvalidArg))
    );
    assert_eq!(MicroKernelTask::sys_ipc(&mut kernel, 2, 1, 1, &mut msg, 0), IpcStep::Done(Ok(0)));
    assert_eq!(kernel.tasks[1].state, TaskState::Runable);
}

#[test]
fn send_without_waiting_would_block() {
    let mut kernel = kernel_with(2);
    let mut msg = message(MessageContent::PingMsg(1));
    assert_eq!(
        MicroKernelTask::sys_ipc(&mut kernel, 2, 1, 0, &mut msg, SEND | NON_BLOCK),
        IpcStep::Done(Err(SysCallError::WouldBlock))
    );
    assert!(kernel.tasks[0].senders.is_empty());
    assert_eq!(kernel.tasks[0].message, None);
}

#[test]
fn kernel_flag_sets_the_source() {
    let mut kernel = kernel_with(2);
    let mut out = Message::blank();
    let mut msg = message(MessageContent::PingMsg(9));
    assert_eq!(MicroKernelTask::sys_ipc(&mut kernel, 1, 0, 0, &mut out, RECV), IpcStep::Blocked);
    let flags = IPCFlags::send() | IPCFlags::kernel();
    assert_eq!(
        MicroKernelTask::send_message(&mut kernel, 2, 1, &mut msg, flags),
        IpcStep::Done(Ok(0))
    );
    assert_eq!(MicroKernelTask::ipc_resume(&mut kernel, 1, &mut out), IpcStep::Done(Ok(0)));
    assert_eq!((out.source, out.content), (FROM_KERNEL, MessageContent::PingMsg(9)));
}

#[test]
fn pending_notifications_are_drained_by_a_receive() {
    let mut kernel = kernel_with(2);
    let mut out = Message::blank();
    kernel.tasks[1].notify(Notify::from(NotifyEnum::IRQ));
    kernel.tasks[1].notify(Notify::from(NotifyEnum::ASYNC(1)));
    assert_eq!(kernel.tasks[1].notifications.to_bits(), 18);
    assert_eq!(
        MicroKernelTask::sys_ipc(&mut kernel, 2, 0, 0, &mut out, RECV | NON_BLOCK),
        IpcStep::Done(Ok(0))
    );
    assert_eq!(out.source, FROM_KERNEL);
    assert_eq!(out.content, MessageContent::NotifyField { notications: Notify::from_bits(18) });
    assert!(kernel.tasks[1].notifications.is_empty());
    assert_eq!(
        MicroKernelTask::sys_ipc(&mut kernel, 2, 0, 0, &mut out, RECV | NON_BLOCK),
        IpcStep::Done(Err(SysCallError::WouldBlock))
    );
}

#[test]
fn notifications_do_not_overtake_a_receive_from_one_sender() {
    let mut kernel = kernel_with(3);
    let mut out = Message::blank();
    let mut msg = message(MessageContent::PingMsg(4));
    assert_eq!(MicroKernelTask::sys_ipc(&mut kernel, 2, 0, 3, &mut out, RECV), IpcStep::Blocked);
    assert_eq!(MicroKernelTask::sys_notify(&mut kernel, 2, Notify::from(NotifyEnum::IRQ)), Ok(0));
    assert_eq!(kernel.tasks[1].state, TaskState::Blocked);
    assert_eq!(kernel.tasks[1].message, None);
    assert_eq!(kernel.tasks[1].notifications.to_bits(), 2);
    assert_eq!(
        MicroKernelTask::sys_ipc(&mut kernel, 3, 2, 0, &mut msg, SEND | NON_BLOCK),
        IpcStep::Done(Ok(0))
    );
    assert_eq!(MicroKernelTask::ipc_resume(&mut kernel, 2, &mut out), IpcStep::Done(Ok(0)));
    assert_eq!((out.source, out.content), (3, MessageContent::PingMsg(4)));
    assert_eq!(kernel.tasks[1].notifications.to_bits(), 2);
}

#[test]
fn notification_joins_the_pending_ones_for_a_waiting_task() {
    let mut kernel = kernel_with(2);
    let mut out = Message::blank();
    assert_eq!(MicroKernelTask::sys_ipc(&mut kernel, 2, 0, 0, &mut out, RECV), IpcStep::Blocked);
    assert_eq!(MicroKernelTask::sys_notify(&mut kernel, 2, Notify::from(NotifyEnum::ASYNC(0))), Ok(0));
    assert_eq!(kernel.tasks[1].state, TaskState::Runable);
    assert!(kernel.tasks[1].notifications.is_empty());
    assert_eq!(MicroKernelTask::sys_notify(&mut kernel, 2, Notify::from(NotifyEnum::IRQ)), Ok(0));
    assert_eq!(MicroKernelTask::ipc_resume(&mut kernel, 2, &mut out), IpcStep::Done(Ok(0)));
    assert_eq!(out.source, FROM_KERNEL);
    assert_eq!(out.content, MessageContent::NotifyField { notications: Notify::from_bits(8) });
    assert_eq!(kernel.tasks[1].notifications.to_bits(), 2);
    assert_eq!(
        MicroKernelTask::sys_notify(&mut kernel, 9, Notify::from(NotifyEnum::IRQ)),
        Err(SysCallError::InvalidTask)
    );
}

#[test]
fn destroy_aborts_a_receiver_that_waits_for_the_task() {
    let mut kernel = kernel_with(4);
    let mut out = Message::blank();
    let mut any = Message::blank();
    assert_eq!(MicroKernelTask::sys_ipc(&mut kernel, 2, 0, 3, &mut out, RECV), IpcStep::Blocked);
    assert_eq!(MicroKernelTask::sys_ipc(&mut kernel, 4, 0, 0, &mut any, RECV), IpcStep::Blocked);
    MicroKernelTask::destroy(&mut kernel, 3);
    assert_eq!(kernel.tasks[1].state, TaskState::Runable);
    assert_eq!(kernel.tasks[3].state, TaskState::Blocked);
    assert_eq!(
        MicroKernelTask::ipc_resume(&mut kernel, 2, &mut out),
        IpcStep::Done(Err(SysCallError::Aborted))
    );
    assert_eq!(out, Message::blank());
    assert_eq!(kernel.tasks[1].wait_for, None);
    assert!(matches!(kernel.tasks[1].pending, Pending::Idle));
    assert_eq!(MicroKernelTask::ipc_resume(&mut kernel, 4, &mut any), IpcStep::Blocked);
    let mut msg = message(MessageContent::PingMsg(1));
    assert_eq!(
        MicroKernelTask::sys_ipc(&mut kernel, 2, 3, 0, &mut msg, SEND),
        IpcStep::Done(Err(SysCallError::InvalidArg))
    );
}

#[test]
fn destroyed_sender_leaves_the_queue() {
    let mut kernel = kernel_with(3);
    let mut msg = message(MessageContent::PingMsg(1));
    let mut out = Message::blank();
    assert_eq!(MicroKernelTask::sys_ipc(&mut kernel, 2, 3, 0, &mut msg, SEND), IpcStep::Blocked);
    assert_eq!(kernel.tasks[2].senders, vec![2]);
    assert_eq!(MicroKernelTask::sys_task_exit(&mut kernel, 2), Ok(0));
    assert!(kernel.tasks[2].senders.is_empty());
    assert_eq!(MicroKernelTask::sys_ipc(&mut kernel, 3, 0, 0, &mut out, RECV), IpcStep::Blocked);
    assert_eq!(kernel.tasks[2].wait_for, Some(IPC_ANY));
    assert_eq!(MicroKernelTask::sys_task_destroy(&mut kernel, 2), Err(SysCallError::InvalidTask));
}

#[test]
fn unmapped_user_buffer_goes_to_the_pager() {
    let mut kernel = kernel_with(2);
    let mut msg = Message::blank();
    let mut pager_msg = Message::blank();
    assert_eq!(MicroKernelTask::sys_ipc(&mut kernel, 1, 0, 0, &mut pager_msg, RECV), IpcStep::Blocked);
    assert_eq!(handle_page_fault(&mut kernel, 2, 0xEFFF_F000, &mut msg), None);
    assert_eq!(kernel.tasks[1].fault, None);
    assert_eq!(handle_page_fault(&mut kernel, 2, 0x2000_0010, &mut msg), Some(IpcStep::Blocked));
    let reason = PageFaultReason::user() | PageFaultReason::write();
    assert_eq!(kernel.tasks[1].fault, Some((0x2000_0010, 0x1000, reason)));
    assert_eq!(MicroKernelTask::ipc_resume(&mut kernel, 1, &mut pager_msg), IpcStep::Done(Ok(0)));
    assert_eq!(
        pager_msg.content,
        MessageContent::PageFault { tid: 2, uaddr: 0x2000_0010, ip: 0x1000, fault: reason }
    );
}

#[test]
fn receive_alone_waits_for_the_sender_that_it_names() {
    let mut kernel = kernel_with(3);
    let mut out = Message::blank();
    assert_eq!(
        MicroKernelTask::recv_message(&mut kernel, 2, 3, &mut out, IPCFlags::recv() | IPCFlags::non_block()),
        IpcStep::Done(Err(SysCallError::WouldBlock))
    );
    assert_eq!(MicroKernelTask::recv_message(&mut kernel, 2, 3, &mut out, IPCFlags::recv()), IpcStep::Blocked);
    assert_eq!(kernel.tasks[1].wait_for, Some(3));
    assert_eq!(kernel.tasks[1].state, TaskState::Blocked);
    let mut stranger = message(MessageContent::PingMsg(1));
    assert_eq!(
        MicroKernelTask::ipc(&mut kernel, 1, 2, 0, &mut stranger, IPCFlags::send() | IPCFlags::non_block()),
        IpcStep::Done(Err(SysCallError::WouldBlock))
    );
    let mut msg = message(MessageContent::PingMsg(2));
    assert_eq!(MicroKernelTask::ipc(&mut kernel, 3, 2, 0, &mut msg, IPCFlags::send()), IpcStep::Done(Ok(0)));
    assert_eq!(kernel.tasks[1].message, Some(Message { source: 3, content: MessageContent::PingMsg(2) }));
    assert_eq!(
        MicroKernelTask::ipc(&mut kernel, 1, 2, 0, &mut stranger, IPCFlags::send() | IPCFlags::non_block()),
        IpcStep::Done(Err(SysCallError::WouldBlock))
    );
    assert_eq!(MicroKernelTask::ipc(&mut kernel, 1, 2, 0, &mut stranger, IPCFlags::send()), IpcStep::Blocked);
    assert_eq!(kernel.tasks[1].message, Some(Message { source: 3, content: MessageContent::PingMsg(2) }));
    assert_eq!(kernel.tasks[1].senders, vec![1]);
    assert_eq!(MicroKernelTask::ipc_resume(&mut kernel, 2, &mut out), IpcStep::Done(Ok(0)));
    assert_eq!(kernel.tasks[1].message, None);
    assert_eq!(out, Message { source: 3, content: MessageContent::PingMsg(2) });
    assert_eq!(MicroKernelTask::ipc_resume(&mut kernel, 2, &mut out), IpcStep::Done(Ok(0)));
}
