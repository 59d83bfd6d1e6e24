use microkernel::abi::SysCallError;
use microkernel::async_ops::{sleep, NextTime, WaitIPC, WaitResume};
use microkernel::consts::{USER_STACK_PAGES, USER_STACK_TOP_ADDR};
use microkernel::driver::{
    after_resume, effect, interrupt_handler, turn, user_address, Effect, Resumed, RunStep, Suspended,
    TrapType, Turn,
};
use microkernel::flags::{PMAllocFlags, PageFaultReason};
use microkernel::frame::{
    add_frame_range, frame_alloc, frame_alloc_persist, frame_dealloc, FramePool, FrameTracker, PAGE_SIZE,
};
use microkernel::kernel::Kernel;
use microkernel::message::{Message, MessageContent};
use microkernel::model::IpcStep;
use microkernel::page_table::PageTable;
use microkernel::pager::is_mapped;
use microkernel::root::{add_root_server, ElfImage, Segment, SegmentType};
use microkernel::syscall::{Machine, SysStep, UserData};
use microkernel::task::{MicroKernelTask, TaskState};
use microkernel::users;
use microkernel::utils::{align_down, align_up, UserBuffer};

const BASE: usize = 0xffff_ffc0_0000_0000;

fn kernel_with(tasks: usize) -> Kernel {
    let mut kernel = Kernel::new(16, BASE);
    kernel.add_memory(0x8000_0000, 0x8100_0000, 0);
    for i in 0..tasks {
        let pager = if i == 0 { None } else { Some(1) };
        assert_eq!(MicroKernelTask::new(&mut kernel, "task", 0x1000, pager), Ok(i + 1));
    }
    kernel
}

fn data() -> UserData {
    UserData { message: Message::blank(), bytes: Vec::new() }
}

fn machine() -> Machine {
    Machine { now: 7_000_000, key: None }
}

fn call(kernel: &mut Kernel, tid: usize, trap: users::syscall::Trap, data: &mut UserData) -> SysStep {
    let a = trap.args;
    MicroKernelTask::syscall(kernel, tid, trap.id, [a[0], a[1], a[2], a[3], 0, 0], &machine(), data)
}

#[test]
fn align_rounds_to_multiples() {
    assert_eq!(align_up(0, 4096), 0);
    assert_eq!(align_up(1, 4096), 4096);
    assert_eq!(align_up(4096, 4096), 4096);
    assert_eq!(align_up(4097, 4096), 8192);
    assert_eq!(align_up(10, 3), 12);
    assert_eq!(align_down(4097, 4096), 4096);
    assert_eq!(align_down(4095, 4096), 0);
    assert_eq!(align_down(11, 3), 9);
    assert_eq!(UserBuffer::from(0x1234).addr(), 0x1234);
}

#[test]
fn frames_above_the_kernel_are_added() {
    let mut kernel = Kernel::new(4, BASE);
    add_frame_range(&mut kernel.frames, 0x8000_0000, 0x8001_0000, 0x8000_2001);
    let mut seen = Vec::new();
    for _ in 0..13 {
        let page = frame_alloc(&mut kernel.frames, 1);
        assert_eq!(page.len(), 1);
        assert!(page[0].0 >= 0x80003 && page[0].0 < 0x80010);
        assert!(!seen.contains(&page[0].0));
        seen.push(page[0].0);
    }
    assert!(frame_alloc(&mut kernel.frames, 1).is_empty());
    assert_eq!(frame_alloc_persist(&mut kernel.frames), None);
    frame_dealloc(&mut kernel.frames, 0x80007);
    assert_eq!(frame_alloc_persist(&mut kernel.frames), Some(0x80007));
}

#[test]
fn frames_of_one_allocation_follow_one_another() {
    let mut kernel = Kernel::new(4, BASE);
    add_frame_range(&mut kernel.frames, 0x10_0000, 0x20_0000, 0);
    assert!(frame_alloc(&mut Kernel::new(4, BASE).frames, 1).is_empty());
    let pages = frame_alloc(&mut kernel.frames, 3);
    assert_eq!(pages.len(), 3);
    assert_eq!(pages[0].0 % 4, 0);
    assert_eq!(pages[1], FrameTracker(pages[0].0 + 1));
    assert_eq!(pages[2], FrameTracker(pages[0].0 + 2));
    assert!(pages[0].0 >= 0x100 && pages[2].0 < 0x200);
    assert!(frame_alloc(&mut kernel.frames, 0).is_empty());
    assert!(frame_alloc(&mut kernel.frames, 0x8000_0001).is_empty());
    assert!(frame_alloc(&mut kernel.frames, 512).is_empty());
}

#[test]
fn new_task_has_a_stack_and_runs() {
    let mut kernel = kernel_with(0);
    assert_eq!(MicroKernelTask::new(&mut kernel, "shell", 0x4_0000, Some(1)), Ok(1));
    let task = &kernel.tasks[0];
    assert_eq!(task.tid, 1);
    assert_eq!(task.name, "shell");
    assert_eq!(task.pager, Some(1));
    assert_eq!(task.state, TaskState::Runable);
    assert!(!task.destoryed);
    assert_eq!(task.timeout, 0);
    assert!(task.notifications.is_empty());
    assert!(task.senders.is_empty());
    assert_eq!(task.wait_for, None);
    assert_eq!(task.message, None);
    assert_eq!(task.fault, None);
    assert_eq!(task.get_trap_frame().sepc, 0x4_0000);
    assert_eq!(task.get_trap_frame().sp, USER_STACK_TOP_ADDR);
    assert_eq!(task.get_trap_frame().sp, 0xF000_0000);
    assert_eq!(task.pages.len(), USER_STACK_PAGES);
    assert_eq!(task.pages.len(), 20);
    for i in 0..20 {
        assert_eq!(task.page_table().lookup(0xF0000 - i), Some(task.pages[i].0));
        for j in 0..i {
            assert_ne!(task.pages[i], task.pages[j]);
        }
    }
    assert_eq!(task.page_table().lookup(0xF0001), None);
    assert_eq!(task.page_table().lookup(0xF0000 - 20), None);
    assert_eq!(kernel.task_count(), 1);
    assert!(kernel.is_live(1));
    assert!(!kernel.is_live(2));
    assert!(!kernel.is_live(0));
    assert!(kernel.tid2task(1).is_some());
    assert!(kernel.tid2task(2).is_none());
}

#[test]
fn tasks_get_ids_in_order_and_own_different_frames() {
    let kernel = kernel_with(3);
    assert_eq!(kernel.tasks[0].tid, 1);
    assert_eq!(kernel.tasks[2].tid, 3);
    for page in &kernel.tasks[0].pages {
        assert!(!kernel.tasks[1].pages.contains(page));
        assert!(!kernel.tasks[2].pages.contains(page));
    }
}

#[test]
fn no_task_without_a_slot() {
    let mut kernel = Kernel::new(1, BASE);
    add_frame_range(&mut kernel.frames, 0x8000_0000, 0x8100_0000, 0);
    assert_eq!(MicroKernelTask::new(&mut kernel, "a", 0, None), Ok(1));
    assert_eq!(MicroKernelTask::new(&mut kernel, "b", 0, None), Err(SysCallError::TooManyTasks));
    assert_eq!(kernel.task_count(), 1);
}

#[test]
fn no_task_without_frames_for_its_stack() {
    let mut kernel = Kernel::new(4, BASE);
    add_frame_range(&mut kernel.frames, 0x8000_0000, 0x8001_3000, 0);
    assert_eq!(MicroKernelTask::new(&mut kernel, "a", 0, None), Err(SysCallError::NoMemory));
    assert_eq!(kernel.task_count(), 0);
    for _ in 0..19 {
        assert_eq!(frame_alloc(&mut kernel.frames, 1).len(), 1);
    }
    assert!(frame_alloc(&mut kernel.frames, 1).is_empty());
    let mut kernel = Kernel::new(4, BASE);
    add_frame_range(&mut kernel.frames, 0x8000_0000, 0x8001_4000, 0);
    assert_eq!(MicroKernelTask::new(&mut kernel, "a", 0, None), Ok(1));
    assert_eq!(MicroKernelTask::new(&mut kernel, "b", 0, None), Err(SysCallError::NoMemory));
}

#[test]
fn destroyed_task_gives_its_frames_back() {
    let mut kernel = Kernel::new(4, BASE);
    add_frame_range(&mut kernel.frames, 0x8000_0000, 0x8001_4000, 0);
    assert_eq!(MicroKernelTask::new(&mut kernel, "a", 0, None), Ok(1));
    assert_eq!(MicroKernelTask::run(&mut kernel, 1), RunStep::EnterUser);
    assert_eq!(MicroKernelTask::sys_task_exit(&mut kernel, 1), Ok(0));
    assert_eq!(kernel.tasks[0].pages.len(), 20);
    assert_eq!(MicroKernelTask::run(&mut kernel, 1), RunStep::Exit);
    assert!(kernel.tasks[0].pages.is_empty());
    assert_eq!(MicroKernelTask::new(&mut kernel, "b", 0, None), Ok(2));
    assert_eq!(MicroKernelTask::run(&mut kernel, 1), RunStep::Exit);
}

#[test]
fn blocked_task_yields() {
    let mut kernel = kernel_with(2);
    let mut msg = Message::blank();
    assert_eq!(MicroKernelTask::sys_ipc(&mut kernel, 2, 0, 0, &mut msg, 1 << 17), IpcStep::Blocked);
    assert_eq!(MicroKernelTask::run(&mut kernel, 2), RunStep::Yield);
    assert!(!WaitIPC(2).poll(&kernel));
    assert!(WaitIPC(1).poll(&kernel));
    kernel.tasks[1].resume();
    assert_eq!(MicroKernelTask::run(&mut kernel, 2), RunStep::EnterUser);
    kernel.tasks[1].block();
    assert_eq!(kernel.tasks[1].state, TaskState::Blocked);
}

#[test]
fn waiting_for_a_time() {
    assert!(!NextTime(5).poll(4));
    assert!(NextTime(5).poll(5));
    assert!(NextTime(5).poll(6));
    assert_eq!(sleep(10, 5).0, 15);
    let mut kernel = kernel_with(1);
    assert_eq!(MicroKernelTask::sys_time(&mut kernel, 1, 100, 1), Ok(0));
    assert!(WaitResume(1).poll(&mut kernel, 1_000_099));
    assert_eq!(kernel.tasks[0].timeout, 1_000_100);
    assert!(WaitResume(1).poll(&mut kernel, 1_000_100));
    assert_eq!(kernel.tasks[0].timeout, 0);
    assert_eq!(kernel.tasks[0].notifications.to_bits(), 1);
}

#[test]
fn timeout_that_does_not_fit_is_refused() {
    let mut kernel = kernel_with(1);
    assert_eq!(
        MicroKernelTask::sys_time(&mut kernel, 1, 0, usize::MAX),
        Err(SysCallError::InvalidArg)
    );
    assert_eq!(
        MicroKernelTask::sys_time(&mut kernel, 1, usize::MAX, 1),
        Err(SysCallError::InvalidArg)
    );
    assert_eq!(kernel.tasks[0].timeout, 0);
    assert_eq!(MicroKernelTask::sys_time(&mut kernel, 1, 0, 0), Ok(0));
    assert_eq!(kernel.tasks[0].timeout, 0);
    assert_eq!(MicroKernelTask::sys_uptime(5_999_999), Ok(5));
}

#[test]
fn timer_leaves_tasks_alone_whose_time_has_not_come() {
    let mut kernel = kernel_with(3);
    assert_eq!(MicroKernelTask::sys_time(&mut kernel, 2, 0, 2), Ok(0));
    assert_eq!(MicroKernelTask::sys_time(&mut kernel, 3, 0, 5), Ok(0));
    MicroKernelTask::check_timeouts(&mut kernel, 2_000_000);
    assert!(kernel.tasks[0].notifications.is_empty());
    assert_eq!(kernel.tasks[1].notifications.to_bits(), 1);
    assert_eq!(kernel.tasks[1].timeout, 0);
    assert!(kernel.tasks[2].notifications.is_empty());
    assert_eq!(kernel.tasks[2].timeout, 5_000_000);
}

#[test]
fn memory_for_oneself_and_for_a_child() {
    let mut kernel = kernel_with(3);
    let paddr = MicroKernelTask::sys_pm_alloc(&mut kernel, 2, 2, 4097, 0).unwrap();
    assert_eq!(paddr % PAGE_SIZE, 0);
    assert_eq!(paddr % (2 * PAGE_SIZE), 0);
    assert_eq!(kernel.tasks[1].pages.len(), 22);
    assert_eq!(kernel.tasks[1].pages[20], FrameTracker(paddr / PAGE_SIZE));
    assert_eq!(kernel.tasks[1].pages[21], FrameTracker(paddr / PAGE_SIZE + 1));
    let child = MicroKernelTask::sys_pm_alloc(&mut kernel, 1, 3, 1, 2).unwrap();
    assert_eq!(kernel.tasks[2].pages.len(), 21);
    assert_eq!(kernel.tasks[2].pages[20], FrameTracker(child / PAGE_SIZE));
    assert_ne!(child / PAGE_SIZE, paddr / PAGE_SIZE);
    assert_eq!(kernel.tasks[0].pages.len(), 20);
    let large = MicroKernelTask::sys_pm_alloc(&mut kernel, 2, 2, 5 * PAGE_SIZE, 4).unwrap();
    assert_eq!(large % (8 * PAGE_SIZE), 0);
    assert_eq!(kernel.tasks[1].pages.len(), 27);
    assert_eq!(kernel.tasks[1].pages[26], FrameTracker(large / PAGE_SIZE + 4));
}

#[test]
fn memory_is_refused() {
    let mut kernel = kernel_with(3);
    assert_eq!(
        MicroKernelTask::sys_pm_alloc(&mut kernel, 2, 2, 4096, 8),
        Err(SysCallError::InvalidArg)
    );
    assert_eq!(
        MicroKernelTask::sys_pm_alloc(&mut kernel, 3, 2, 4096, 0),
        Err(SysCallError::InvalidTask)
    );
    assert_eq!(
        MicroKernelTask::sys_pm_alloc(&mut kernel, 2, 1, 4096, 0),
        Err(SysCallError::InvalidTask)
    );
    assert_eq!(
        MicroKernelTask::sys_pm_alloc(&mut kernel, 1, 9, 4096, 0),
        Err(SysCallError::InvalidTask)
    );
    assert_eq!(MicroKernelTask::sys_pm_alloc(&mut kernel, 2, 2, 0, 0), Err(SysCallError::NoMemory));
    assert_eq!(
        MicroKernelTask::sys_pm_alloc(&mut kernel, 2, 2, usize::MAX, 0),
        Err(SysCallError::NoMemory)
    );
    assert_eq!(
        MicroKernelTask::sys_pm_alloc(&mut kernel, 2, 2, 0x1000_0000, 0),
        Err(SysCallError::NoMemory)
    );
    assert_eq!(kernel.tasks[1].pages.len(), 20);
    let mut task_flags = PMAllocFlags::empty();
    task_flags = task_flags | PMAllocFlags::zerod();
    assert_eq!(kernel.tasks[1].alloc_memory(&mut kernel.frames, 0, task_flags), None);
}

#[test]
fn mapping_and_translation() {
    let mut kernel = kernel_with(3);
    assert_eq!(MicroKernelTask::sys_trans_paddr(&kernel, 2, 0x5000_0123), Err(SysCallError::InvalidUaddr));
    assert_eq!(MicroKernelTask::sys_vm_map(&mut kernel, 2, 2, 0x5000_0123, 0x8040_0456, 0), Ok(0));
    assert_eq!(MicroKernelTask::sys_trans_paddr(&kernel, 2, 0x5000_0123), Ok(0x8040_0123));
    assert_eq!(MicroKernelTask::sys_trans_paddr(&kernel, 2, 0x5000_0fff), Ok(0x8040_0fff));
    assert_eq!(MicroKernelTask::sys_trans_paddr(&kernel, 2, 0x5000_1000), Err(SysCallError::InvalidUaddr));
    assert_eq!(MicroKernelTask::sys_trans_paddr(&kernel, 3, 0x5000_0123), Err(SysCallError::InvalidUaddr));
    assert_eq!(MicroKernelTask::sys_vm_map(&mut kernel, 1, 3, 0x5000_0000, 0x8050_0000, 0), Ok(0));
    assert_eq!(MicroKernelTask::sys_trans_paddr(&kernel, 3, 0x5000_0010), Ok(0x8050_0010));
    assert_eq!(
        MicroKernelTask::sys_vm_map(&mut kernel, 2, 3, 0x6000_0000, 0x8050_0000, 0),
        Err(SysCallError::InvalidTask)
    );
    assert_eq!(
        MicroKernelTask::sys_vm_unmap(&mut kernel, 3, 2, 0x5000_0000),
        Err(SysCallError::InvalidTask)
    );
    assert_eq!(MicroKernelTask::sys_trans_paddr(&kernel, 2, 0x5000_0123), Ok(0x8040_0123));
    assert_eq!(MicroKernelTask::sys_vm_unmap(&mut kernel, 2, 2, 0x5000_0fff), Ok(0));
    assert_eq!(MicroKernelTask::sys_trans_paddr(&kernel, 2, 0x5000_0123), Err(SysCallError::InvalidUaddr));
    assert_eq!(MicroKernelTask::sys_vm_unmap(&mut kernel, 1, 3, 0x5000_0000), Ok(0));
    assert!(MicroKernelTask::may_change(&kernel, 1, 2));
    assert!(!MicroKernelTask::may_change(&kernel, 2, 1));
}

#[test]
fn page_table_keeps_the_last_mapping_of_a_page() {
    let mut table = PageTable::new();
    assert_eq!(table.lookup(7), None);
    table.map_page(7, 100);
    table.map_page(8, 200);
    table.map_page(7, 300);
    assert_eq!(table.lookup(7), Some(300));
    assert_eq!(table.lookup(8), Some(200));
    assert_eq!(table.translate(7 * 4096 + 5), Some(300 * 4096 + 5));
    assert!(is_mapped(&table, 8 * 4096));
    assert!(!is_mapped(&table, 9 * 4096));
    table.unmap_page(7);
    assert_eq!(table.lookup(7), None);
    assert_eq!(table.lookup(8), Some(200));
    table.unmap_page(7);
    assert_eq!(table.translate(7 * 4096), None);
}

#[test]
fn fault_reason_is_completed() {
    let mut kernel = kernel_with(2);
    kernel.tasks[1].set_fault(0x3000, PageFaultReason::write(), BASE);
    assert_eq!(
        kernel.tasks[1].fault,
        Some((0x3000, 0x1000, PageFaultReason::write() | PageFaultReason::user()))
    );
    kernel.tasks[1].map_page(3, 0x80000);
    kernel.tasks[1].set_fault(0x3008, PageFaultReason::exec(), 0x10);
    assert_eq!(
        kernel.tasks[1].fault,
        Some((0x3008, 0x1000, PageFaultReason::exec() | PageFaultReason::present()))
    );
    kernel.tasks[1].set_fault(0x3008, PageFaultReason::exec(), 0x1000);
    assert_eq!(
        kernel.tasks[1].fault,
        Some((0x3008, 0x1000, PageFaultReason::exec() | PageFaultReason::present()))
    );
    kernel.tasks[1].set_fault(0x3008, PageFaultReason::exec(), 0x1001);
    assert_eq!(
        kernel.tasks[1].fault,
        Some((
            0x3008,
            0x1000,
            PageFaultReason::exec() | PageFaultReason::present() | PageFaultReason::user()
        ))
    );
    interrupt_handler(&mut kernel, Some(1), TrapType::StorePageFault(0x9000), 0);
    assert_eq!(
        kernel.tasks[0].fault,
        Some((0x9000, 0x1000, PageFaultReason::write() | PageFaultReason::user()))
    );
    interrupt_handler(&mut kernel, Some(1), TrapType::InstructionPageFault(0xa000), 0);
    assert_eq!(
        kernel.tasks[0].fault,
        Some((0xa000, 0x1000, PageFaultReason::exec() | PageFaultReason::user()))
    );
    interrupt_handler(&mut kernel, Some(9), TrapType::LoadPageFault(0xb000), 0);
    interrupt_handler(&mut kernel, None, TrapType::LoadPageFault(0xb000), 0);
    interrupt_handler(&mut kernel, Some(1), TrapType::UserEnvCall, 0);
    interrupt_handler(&mut kernel, Some(1), TrapType::Other, 0);
    assert_eq!(kernel.tasks[0].fault.unwrap().0, 0xa000);
    assert_eq!(MicroKernelTask::handle_page_fault(&mut kernel, 2, &mut Message::blank()).is_some(), true);
}

#[test]
fn no_fault_no_call_to_the_pager() {
    let mut kernel = kernel_with(2);
    let mut msg = Message::blank();
    assert_eq!(MicroKernelTask::handle_page_fault(&mut kernel, 2, &mut msg), None);
    assert_eq!(msg, Message::blank());
    assert_eq!(kernel.tasks[1].state, TaskState::Runable);
    assert_eq!(kernel.tasks[0].pager, None);
    assert_eq!(microkernel::pager::handle_page_fault(&mut kernel, 1, 0xEFFF_F123, &mut msg), None);
    assert_eq!(kernel.tasks[0].fault, None);
    assert_eq!(kernel.tasks[0].state, TaskState::Runable);
}

#[test]
fn root_server_is_mapped_onto_its_image() {
    let mut kernel = kernel_with(0);
    let image = ElfImage {
        entry_point: 0x1_0040,
        segments: vec![
            Segment { kind: SegmentType::Other, virtual_addr: 0, mem_size: 0x40, file_size: 0x40, offset: 0x40 },
            Segment {
                kind: SegmentType::Load,
                virtual_addr: 0x1_0000,
                mem_size: 0x2345,
                file_size: 0x2000,
                offset: 0x1000,
            },
            Segment { kind: SegmentType::Null, virtual_addr: 0x9_0000, mem_size: 0x1000, file_size: 0, offset: 0 },
            Segment { kind: SegmentType::Load, virtual_addr: 0x2_0000, mem_size: 1, file_size: 1, offset: 0x4000 },
        ],
    };
    assert_eq!(add_root_server(&mut kernel, &image, 0x8020_0000), Ok(1));
    let root = &kernel.tasks[0];
    assert_eq!(root.name, "VM");
    assert_eq!(root.pager, None);
    assert_eq!(root.state, TaskState::Runable);
    assert_eq!(root.get_trap_frame().sepc, 0x1_0040);
    assert_eq!(root.get_trap_frame().sp, 0xF000_0000);
    assert_eq!(root.page_table().lookup(0x10), Some(0x80201));
    assert_eq!(root.page_table().lookup(0x11), Some(0x80202));
    assert_eq!(root.page_table().lookup(0x12), Some(0x80203));
    assert_eq!(root.page_table().lookup(0x13), None);
    assert_eq!(root.page_table().lookup(0x20), Some(0x80204));
    assert_eq!(root.page_table().lookup(0x21), None);
    assert_eq!(root.page_table().lookup(0x90), None);
    assert_eq!(root.page_table().lookup(0), None);
    assert_eq!(root.pages.len(), 20);
    assert_eq!(root.page_table().lookup(0xF0000), Some(root.pages[0].0));
}

#[test]
fn unknown_and_reserved_system_calls() {
    let mut kernel = kernel_with(2);
    let mut d = data();
    for id in [0usize, 19, 1000, usize::MAX] {
        assert_eq!(
            MicroKernelTask::syscall(&mut kernel, 2, id, [0; 6], &machine(), &mut d),
            SysStep::Done(Err(SysCallError::InvalidSyscall))
        );
    }
    assert_eq!(
        MicroKernelTask::syscall(&mut kernel, 2, 16, [0; 6], &machine(), &mut d),
        SysStep::Done(Err(SysCallError::NotSupported))
    );
}

#[test]
fn system_calls_through_the_traps_of_user_space() {
    let mut kernel = kernel_with(2);
    let mut d = data();
    assert_eq!(call(&mut kernel, 2, users::syscall::task_self(), &mut d), SysStep::Done(Ok(2)));
    assert_eq!(call(&mut kernel, 2, users::syscall::sys_uptime(), &mut d), SysStep::Done(Ok(7)));
    assert_eq!(call(&mut kernel, 2, users::syscall::sys_time(3), &mut d), SysStep::Done(Ok(0)));
    assert_eq!(kernel.tasks[1].timeout, 10_000_000);
    assert_eq!(call(&mut kernel, 2, users::syscall::shutdown(), &mut d), SysStep::Shutdown);
    assert_eq!(
        call(&mut kernel, 2, users::syscall::sys_vm_map(2, 0x7000, 0x8090_0000, 0), &mut d),
        SysStep::Done(Ok(0))
    );
    assert_eq!(
        call(&mut kernel, 2, users::syscall::translate_vaddr(0x7004), &mut d),
        SysStep::Done(Ok(0x8090_0004))
    );
    assert_eq!(
        call(&mut kernel, 2, users::syscall::sys_vm_unmap(2, 0x7000), &mut d),
        SysStep::Done(Ok(0))
    );
    assert_eq!(
        call(&mut kernel, 2, users::syscall::translate_vaddr(0x7004), &mut d),
        SysStep::Done(Err(SysCallError::InvalidUaddr))
    );
    let got = call(&mut kernel, 2, users::syscall::sys_pm_alloc(2, 4096, 0), &mut d);
    assert!(matches!(got, SysStep::Done(Ok(paddr)) if paddr % 4096 == 0));
    assert_eq!(
        call(&mut kernel, 2, users::syscall::sys_pm_alloc(1, 4096, 0), &mut d),
        SysStep::Done(Err(SysCallError::InvalidTask))
    );
    d.message.content = MessageContent::PingMsg(3);
    assert_eq!(call(&mut kernel, 2, users::syscall::ipc_call(1, 0), &mut d), SysStep::Blocked);
    assert_eq!(kernel.tasks[0].senders, vec![2]);
    assert_eq!(
        call(&mut kernel, 1, users::syscall::ipc_send_noblock(2, 0), &mut data()),
        SysStep::Done(Err(SysCallError::WouldBlock))
    );
    assert_eq!(
        call(&mut kernel, 1, users::syscall::task_destory(2), &mut data()),
        SysStep::Done(Ok(0))
    );
    assert!(kernel.tasks[1].destoryed);
    assert_eq!(
        call(&mut kernel, 1, users::syscall::task_destory(2), &mut data()),
        SysStep::Done(Err(SysCallError::InvalidTask))
    );
    assert_eq!(call(&mut kernel, 1, users::syscall::exit(), &mut data()), SysStep::Done(Ok(0)));
    assert!(kernel.tasks[0].destoryed);
}

#[test]
fn console_calls() {
    let mut kernel = kernel_with(1);
    let mut d = data();
    d.bytes = b"hello".to_vec();
    assert_eq!(call(&mut kernel, 1, users::syscall::serial_write(0x100, 5), &mut d), SysStep::Done(Ok(5)));
    assert_eq!(d.bytes, b"hello".to_vec());
    assert_eq!(call(&mut kernel, 1, users::syscall::serial_read(0x100, 5), &mut d), SysStep::Retry);
    let trap = users::syscall::serial_read(0x100, 5);
    let key = Machine { now: 0, key: Some(b'x') };
    assert_eq!(
        MicroKernelTask::syscall(&mut kernel, 1, trap.id, [0x100, 5, 0, 0, 0, 0], &key, &mut d),
        SysStep::Done(Ok(1))
    );
    assert_eq!(d.bytes, b"xello".to_vec());
    let mut empty = data();
    assert_eq!(
        MicroKernelTask::syscall(&mut kernel, 1, trap.id, [0x100, 0, 0, 0, 0, 0], &key, &mut empty),
        SysStep::Done(Err(SysCallError::InvalidArg))
    );
    assert_eq!(MicroKernelTask::sys_serial_write(b"abc"), Ok(3));
    let mut buf = vec![0u8, 1, 2];
    assert_eq!(MicroKernelTask::sys_serial_read(&mut buf, 9), Ok(1));
    assert_eq!(buf, vec![9, 1, 2]);
}

#[test]
fn task_creation_by_system_call() {
    let mut kernel = kernel_with(1);
    let mut d = data();
    d.bytes = b"pong".to_vec();
    assert_eq!(
        call(&mut kernel, 1, users::syscall::sys_task_create(0x100, 0x8000, 1), &mut d),
        SysStep::Done(Ok(2))
    );
    assert_eq!(kernel.tasks[1].name, "pong");
    assert_eq!(kernel.tasks[1].pager, Some(1));
    assert_eq!(kernel.tasks[1].get_trap_frame().sepc, 0x8000);
    assert_eq!(MicroKernelTask::sys_task_create(&mut kernel, "gr\u{fc}n".as_bytes(), 0, 77), Ok(3));
    assert_eq!(kernel.tasks[2].name, "gr\u{fc}n");
    assert_eq!(kernel.tasks[2].pager, None);
    assert_eq!(
        MicroKernelTask::sys_task_create(&mut kernel, &[b'a', 0xff, b'b'], 0, 1),
        Err(SysCallError::InvalidArg)
    );
    assert_eq!(
        MicroKernelTask::sys_task_create(&mut kernel, &[0xc3], 0, 1),
        Err(SysCallError::InvalidArg)
    );
    assert_eq!(kernel.task_count(), 3);
}

#[test]
fn result_of_a_system_call_goes_into_the_register() {
    let mut kernel = kernel_with(1);
    MicroKernelTask::set_return(&mut kernel, 1, Ok(42));
    assert_eq!(kernel.tasks[0].get_trap_frame().ret, 42);
    MicroKernelTask::set_return(&mut kernel, 1, Err(SysCallError::InvalidArg));
    assert_eq!(kernel.tasks[0].get_trap_frame().ret as isize, -11);
    MicroKernelTask::set_return(&mut kernel, 1, Err(SysCallError::WouldBlock));
    assert_eq!(kernel.tasks[0].get_trap_frame().ret, usize::MAX - 18);
    assert_eq!(kernel.tasks[0].get_trap_frame().sepc, 0x1000);
}

#[test]
fn what_a_system_call_asks_of_its_driver() {
    let args = [10, 0x2345, 0x8000_3456, 40, 50, 60];
    assert_eq!(user_address(1, args), Some(0x8000_3456));
    assert_eq!(user_address(3, args), Some(10));
    assert_eq!(user_address(4, args), Some(10));
    assert_eq!(user_address(5, args), Some(10));
    for id in [0usize, 2, 6, 7, 8, 9, 10, 11, 12, 13, 14, 15, 16, 17, 18, 19] {
        assert_eq!(user_address(id, args), None);
    }
    assert_eq!(effect(9, args, 0x9000), Effect::Zero { paddr: 0x9000, size: 0x2345 });
    assert_eq!(effect(10, args, 0), Effect::MapPage { tid: 10, vpn: 2, ppn: 0x80003 });
    assert_eq!(effect(11, args, 0), Effect::UnmapPage { tid: 10, vpn: 2 });
    assert_eq!(effect(5, args, 7), Effect::Spawn { tid: 7 });
    for id in [0usize, 1, 2, 3, 4, 6, 7, 8, 12, 13, 14, 15, 16, 17, 18, 19] {
        assert_eq!(effect(id, args, 1), Effect::Nothing);
    }
}

#[test]
fn one_page_is_served_while_any_frame_is_free() {
    let mut kernel = Kernel::new(4, BASE);
    add_frame_range(&mut kernel.frames, 0x8000_0000, 0x8001_6000, 0);
    assert_eq!(MicroKernelTask::new(&mut kernel, "a", 0, None), Ok(1));
    let flags = PMAllocFlags::zerod();
    let first = kernel.tasks[0].alloc_memory(&mut kernel.frames, 1, flags).unwrap();
    let second = kernel.tasks[0].alloc_memory(&mut kernel.frames, PAGE_SIZE, flags).unwrap();
    assert_ne!(first, second);
    assert!(first >= 0x8000_0000 && first < 0x8001_6000 && first % PAGE_SIZE == 0);
    assert!(second >= 0x8000_0000 && second < 0x8001_6000 && second % PAGE_SIZE == 0);
    assert_eq!(kernel.tasks[0].pages.len(), 22);
    assert_eq!(kernel.tasks[0].pages[20], FrameTracker(first / PAGE_SIZE));
    assert_eq!(kernel.tasks[0].pages[21], FrameTracker(second / PAGE_SIZE));
    assert_eq!(kernel.tasks[0].alloc_memory(&mut kernel.frames, 1, flags), None);
    assert_eq!(kernel.tasks[0].alloc_memory(&mut kernel.frames, 0, flags), None);
    assert_eq!(kernel.tasks[0].alloc_memory(&mut kernel.frames, usize::MAX, flags), None);
    assert_eq!(kernel.tasks[0].pages.len(), 22);
    frame_dealloc(&mut kernel.frames, kernel.tasks[0].pages.pop().unwrap().0);
    assert_eq!(kernel.tasks[0].alloc_memory(&mut kernel.frames, 4096, flags), Some(second));
    assert_eq!(kernel.tasks[0].alloc_memory(&mut kernel.frames, 4096, flags), None);
}

#[test]
fn memory_is_given_to_the_kernel_range_by_range() {
    let mut kernel = Kernel::new(4, BASE);
    assert_eq!(MicroKernelTask::new(&mut kernel, "a", 0, None), Err(SysCallError::NoMemory));
    kernel.add_memory(0x8000_0000, 0x8000_a000, 0);
    assert_eq!(MicroKernelTask::new(&mut kernel, "a", 0, None), Err(SysCallError::NoMemory));
    kernel.add_memory(0x9000_0000, 0x9000_a000, 0x9000_0000);
    assert_eq!(MicroKernelTask::new(&mut kernel, "a", 0, None), Ok(1));
    assert_eq!(MicroKernelTask::sys_pm_alloc(&mut kernel, 1, 1, 1, 0), Err(SysCallError::NoMemory));
    kernel.add_memory(0xa000_0000, 0xa000_1000, 0xa000_0000);
    assert_eq!(MicroKernelTask::sys_pm_alloc(&mut kernel, 1, 1, 1, 0), Ok(0xa000_0000));
    assert_eq!(MicroKernelTask::sys_pm_alloc(&mut kernel, 1, 1, 1, 0), Err(SysCallError::NoMemory));
    let mut pool = FramePool::new();
    assert!(frame_alloc(&mut pool, 1).is_empty());
    add_frame_range(&mut pool, 0x1000, 0x3000, 0);
    assert!(frame_alloc(&mut pool, 2).is_empty());
    assert_eq!(frame_alloc(&mut pool, 1).len(), 1);
    assert_eq!(frame_alloc(&mut pool, 1).len(), 1);
    assert!(frame_alloc(&mut pool, 1).is_empty());
}

#[test]
fn interrupts_reach_the_tasks_that_listen() {
    let mut kernel = kernel_with(3);
    assert_eq!(MicroKernelTask::sys_irq_listen(&mut kernel, 2, 5), Ok(0));
    assert_eq!(MicroKernelTask::sys_irq_listen(&mut kernel, 2, 5), Ok(0));
    assert_eq!(MicroKernelTask::sys_irq_listen(&mut kernel, 2, 9), Ok(0));
    assert_eq!(MicroKernelTask::sys_irq_listen(&mut kernel, 3, 9), Ok(0));
    assert_eq!(kernel.tasks[1].irqs, vec![5, 9]);
    interrupt_handler(&mut kernel, None, TrapType::Irq(5), 0);
    assert_eq!(kernel.tasks[0].notifications.to_bits(), 0);
    assert_eq!(kernel.tasks[1].notifications.to_bits(), 2);
    assert_eq!(kernel.tasks[2].notifications.to_bits(), 0);
    interrupt_handler(&mut kernel, None, TrapType::Irq(9), 0);
    assert_eq!(kernel.tasks[2].notifications.to_bits(), 2);
    interrupt_handler(&mut kernel, None, TrapType::Irq(7), 0);
    assert_eq!(MicroKernelTask::sys_irq_unlisten(&mut kernel, 3, 5), Err(SysCallError::NotFound));
    assert_eq!(MicroKernelTask::sys_irq_unlisten(&mut kernel, 3, 9), Ok(0));
    assert_eq!(MicroKernelTask::sys_irq_unlisten(&mut kernel, 3, 9), Err(SysCallError::NotFound));
    assert!(kernel.tasks[2].irqs.is_empty());
    let mut out = Message::blank();
    assert_eq!(MicroKernelTask::sys_ipc(&mut kernel, 3, 0, 0, &mut out, (1 << 17) | (1 << 18)), IpcStep::Done(Ok(0)));
    assert!(kernel.tasks[2].notifications.is_empty());
    interrupt_handler(&mut kernel, None, TrapType::Irq(9), 0);
    assert!(kernel.tasks[2].notifications.is_empty());
    let mut d = data();
    assert_eq!(
        MicroKernelTask::syscall(&mut kernel, 1, 12, [3, 0, 0, 0, 0, 0], &machine(), &mut d),
        SysStep::Done(Ok(0))
    );
    assert_eq!(kernel.tasks[0].irqs, vec![3]);
    assert_eq!(MicroKernelTask::sys_ipc(&mut kernel, 1, 0, 0, &mut out, 1 << 17), IpcStep::Blocked);
    interrupt_handler(&mut kernel, None, TrapType::Irq(3), 0);
    assert_eq!(MicroKernelTask::ipc_resume(&mut kernel, 1, &mut out), IpcStep::Done(Ok(0)));
    assert_eq!(out.source, usize::MAX);
    assert_eq!(out.content, MessageContent::NotifyField { notications: microkernel::notify::Notify::from_bits(2) });
    assert_eq!(
        MicroKernelTask::syscall(&mut kernel, 1, 13, [3, 0, 0, 0, 0, 0], &machine(), &mut d),
        SysStep::Done(Ok(0))
    );
    assert_eq!(
        MicroKernelTask::syscall(&mut kernel, 1, 13, [3, 0, 0, 0, 0, 0], &machine(), &mut d),
        SysStep::Done(Err(SysCallError::NotFound))
    );
    assert_eq!(MicroKernelTask::sys_task_exit(&mut kernel, 2), Ok(0));
    interrupt_handler(&mut kernel, None, TrapType::Irq(5), 0);
    assert_eq!(kernel.tasks[1].notifications.to_bits(), 2);
}

#[test]
fn what_the_driver_does_in_a_turn() {
    let args = [1, 2, 3, 4, 5, 6];
    assert_eq!(turn(Suspended::Nothing), Turn::Run);
    assert_eq!(turn(Suspended::Retry(4, args)), Turn::Call(4, args));
    assert_eq!(turn(Suspended::Syscall(0x100)), Turn::Resume);
    assert_eq!(turn(Suspended::Fault), Turn::Resume);
    assert_eq!(turn(Suspended::Validate(1, args)), Turn::Resume);
    for s in [Suspended::Syscall(0x100), Suspended::Fault, Suspended::Validate(1, args)] {
        assert_eq!(after_resume(s, IpcStep::Blocked), Resumed::Wait);
    }
    assert_eq!(
        after_resume(Suspended::Syscall(0x100), IpcStep::Done(Ok(0))),
        Resumed::Return { write_back: Some(0x100), result: Ok(0) }
    );
    assert_eq!(
        after_resume(Suspended::Syscall(0x100), IpcStep::Done(Err(SysCallError::Aborted))),
        Resumed::Return { write_back: None, result: Err(SysCallError::Aborted) }
    );
    assert_eq!(
        after_resume(Suspended::Fault, IpcStep::Done(Ok(0))),
        Resumed::EndFault { result: Ok(0), then: None }
    );
    assert_eq!(
        after_resume(Suspended::Validate(1, args), IpcStep::Done(Err(SysCallError::Aborted))),
        Resumed::EndFault { result: Err(SysCallError::Aborted), then: Some((1, args)) }
    );
}
