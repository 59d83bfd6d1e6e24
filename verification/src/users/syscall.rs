//! The system calls and the requests to the servers, from the side of the
//! task that makes them. Only the machine can trap into the kernel, so a
//! function here makes the value that stands for the trap, or the message of
//! the request, and another reads what came back.

use vstd::prelude::*;
use vstd::string::StringSliceAdditionalSpecFns;
use crate::abi::{SysCall, IPC_ANY, NAME_LEN, VM_SERVER};
use crate::flags::IPCFlags;
use crate::message::{Message, MessageContent, BLOCK_SIZE, PATH_LEN};
use crate::notify::{Notify, NotifyEnum};

verus! {

/// A trap into the kernel: the number of the system call and its arguments,
/// as they go into the registers.
#[derive(Debug, Clone, Copy, PartialEq, Eq)]
pub struct Trap {
    pub id: usize,
    pub args: [usize; 4],
}

/// A call of a server: the task to call, and the message of the request.
#[derive(Debug, Clone, Copy, PartialEq, Eq)]
pub struct Request {
    pub dst: usize,
    pub message: Message,
}

/// What a receive does next.
#[derive(Debug, Clone, Copy, PartialEq, Eq)]
pub enum RecvPlan {
    /// It is over with this result, without a trap.
    Done(isize),
    /// It traps into the kernel.
    Trap(Trap),
}

/// The trap of a system call with these arguments.
pub open spec fn trap_of(call: SysCall, a0: usize, a1: usize, a2: usize, a3: usize) -> Trap {
    Trap { id: call.number(), args: [a0, a1, a2, a3] }
}

/// The bytes `bytes` followed by zeros, `n` bytes in all.
pub open spec fn padded(bytes: Seq<u8>, n: int) -> Seq<u8> {
    Seq::new(
        n as nat,
        |i: int|
            if i < bytes.len() {
                bytes[i]
            } else {
                0u8
            },
    )
}

/// The bytes of a buffer up to its first zero byte, or all of them where it has none.
pub open spec fn until_nul(buffer: Seq<u8>) -> Seq<u8>
    decreases buffer.len(),
{
    if buffer.len() == 0 || buffer[0] == 0 {
        Seq::empty()
    } else {
        seq![buffer[0]] + until_nul(buffer.drop_first())
    }
}

/// The characters that `String::from_utf8_lossy` makes of bytes.
pub uninterp spec fn utf8_lossy(bytes: Seq<u8>) -> Seq<char>;

/// `String::from_utf8_lossy` of the standard library: the bytes as a string,
/// with every part that is no valid UTF-8 replaced by the replacement
/// character. Bytes that are valid UTF-8 give the string that they encode.
#[verifier::external_body]
pub(crate) fn string_from_utf8_lossy(bytes: &[u8]) -> (r: String)
    ensures
        r@ == utf8_lossy(bytes@),
        vstd::utf8::valid_utf8(bytes@) ==> r@ == vstd::utf8::decode_utf8(bytes@),
{
    String::from_utf8_lossy(bytes).into_owned()
}

/// The trap of a system call with these arguments.
pub fn trap(call: SysCall, a0: usize, a1: usize, a2: usize, a3: usize) -> (r: Trap)
    ensures
        r == trap_of(call, a0, a1, a2, a3),
        SysCall::of_number(r.id) == Some(call),
{
    Trap { id: usize::from(call), args: [a0, a1, a2, a3] }
}

/// A buffer of `N` bytes that begins with `bytes` and is zero after them.
pub fn fill_buffer<const N: usize>(bytes: &[u8]) -> (r: [u8; N])
    requires
        bytes@.len() <= N,
    ensures
        r@ == padded(bytes@, N as int),
{
    let mut buffer = [0u8;N];
    let mut i: usize = 0;
    while i < bytes.len()
        invariant
            i <= bytes@.len(),
            bytes@.len() <= N,
            buffer@.len() == N,
            forall|j: int| 0 <= j < i ==> buffer@[j] == bytes@[j],
            forall|j: int| i <= j < N ==> buffer@[j] == 0,
        decreases bytes@.len() - i,
    {
        buffer[i] = bytes[i];
        i = i + 1;
    }
    proof {
        assert(buffer@ =~= padded(bytes@, N as int));
    }
    buffer
}

/// The string in a buffer: the bytes up to the first zero byte, read as
/// UTF-8; what is no valid UTF-8 becomes the replacement character.
pub fn get_string_from_slice(buffer: &[u8]) -> (r: String)
    ensures
        r@ == utf8_lossy(until_nul(buffer@)),
        vstd::utf8::valid_utf8(until_nul(buffer@)) ==> r@ == vstd::utf8::decode_utf8(
            until_nul(buffer@),
        ),
{
    let mut len: usize = 0;
    proof {
        assert(buffer@.skip(0) =~= buffer@);
        assert(buffer@.take(0) + until_nul(buffer@) =~= until_nul(buffer@));
    }
    while len < buffer.len() && buffer[len] != 0
        invariant
            len <= buffer@.len(),
            until_nul(buffer@) == buffer@.take(len as int) + until_nul(buffer@.skip(len as int)),
            forall|j: int| 0 <= j < len ==> buffer@[j] != 0,
        decreases buffer@.len() - len,
    {
        proof {
            let rest = buffer@.skip(len as int);
            assert(rest.drop_first() =~= buffer@.skip(len + 1));
            assert(buffer@.take(len as int) + seq![rest[0]] =~= buffer@.take(len + 1));
            assert(buffer@.take(len as int) + (seq![rest[0]] + until_nul(rest.drop_first()))
                =~= (buffer@.take(len as int) + seq![rest[0]]) + until_nul(rest.drop_first()));
        }
        len = len + 1;
    }
    proof {
        assert(until_nul(buffer@.skip(len as int)) =~= Seq::<u8>::empty());
        assert(buffer@.take(len as int) + Seq::<u8>::empty() =~= buffer@.take(len as int));
        assert(buffer@.take(len as int) =~= buffer@.subrange(0, len as int));
    }
    string_from_utf8_lossy(vstd::slice::slice_subrange(buffer, 0, len))
}

/// Turns the lowest pending notification into a message: a timeout that
/// has passed, or an interrupt. No other notification can be turned into a
/// message.
pub fn recv_notification_as_message(pending: &mut Notify, message: &mut Message) -> (r: isize)
    requires
        old(pending)@.contains(0) || old(pending)@.contains(1),
    ensures
        r == 0,
        final(message).source == old(message).source,
        old(pending)@.contains(0) ==> final(message).content == MessageContent::NotifyTimer
            && final(pending)@ == old(pending)@.remove(0),
        !old(pending)@.contains(0) ==> final(message).content == MessageContent::NotifyIRQ
            && final(pending)@ == old(pending)@.remove(1),
{
    proof {
        pending.lemma_view_range();
    }
    match pending.pop() {
        Some(NotifyEnum::TIMER) => {
            message.content = MessageContent::NotifyTimer;
        },
        _ => {
            message.content = MessageContent::NotifyIRQ;
        },
    }
    0
}

/// Begins a receive from any sender. Where a notification is pending from
/// an earlier receive, it becomes the message and the kernel is not asked;
/// otherwise the task traps to receive from any sender.
pub fn ip_recv_any(pending: &mut Notify, message: &mut Message, message_addr: usize) -> (r: RecvPlan)
    requires
        old(pending)@ != Set::<int>::empty() ==> old(pending)@.contains(0) || old(pending)@.contains(1),
    ensures
        old(pending)@ == Set::<int>::empty() ==> r == RecvPlan::Trap(
            trap_of(SysCall::IPC, 0, IPC_ANY, message_addr, 0x20000),
        ) && *final(pending) == *old(pending) && *final(message) == *old(message),
        old(pending)@ != Set::<int>::empty() ==> r == RecvPlan::Done(0) && final(message).source
            == old(message).source && final(message).content == (if old(pending)@.contains(0) {
            MessageContent::NotifyTimer
        } else {
            MessageContent::NotifyIRQ
        }) && final(pending)@ == old(pending)@.remove(
            if old(pending)@.contains(0) {
                0int
            } else {
                1int
            },
        ),
{
    if !pending.is_empty() {
        return RecvPlan::Done(recv_notification_as_message(pending, message));
    }
    RecvPlan::Trap(sys_ipc(0, IPC_ANY, message_addr, IPCFlags::recv()))
}

/// Whether a receive from any sender that came back with `ret` brought
/// notifications that cannot be turned into a message: neither a timeout nor
/// an interrupt is among them and those that were pending.
pub open spec fn unhandled(pending: Notify, message: Message, ret: isize) -> bool {
    &&& ret == 0
    &&& message.content matches MessageContent::NotifyField { notications } && !(pending@.union(
        notications@,
    ).contains(0) || pending@.union(notications@).contains(1))
}

/// Ends a receive from any sender that trapped and came back with `ret`.
/// Where the kernel has brought notifications, they are added to the pending
/// ones, and the lowest of them becomes the message; the others stay pending
/// for the receives that follow.
pub fn ip_recv_any_done(pending: &mut Notify, message: &mut Message, ret: isize) -> (r: isize)
    requires
        !unhandled(*old(pending), *old(message), ret),
    ensures
        r == ret,
        final(message).source == old(message).source,
        match old(message).content {
            MessageContent::NotifyField { notications } if ret == 0 => {
                let all = old(pending)@.union(notications@);
                &&& final(message).content == (if all.contains(0) {
                    MessageContent::NotifyTimer
                } else {
                    MessageContent::NotifyIRQ
                })
                &&& final(pending)@ == all.remove(
                    if all.contains(0) {
                        0int
                    } else {
                        1int
                    },
                )
            },
            _ => *final(message) == *old(message) && *final(pending) == *old(pending),
        },
{
    if ret != 0 {
        return ret;
    }
    match message.content {
        MessageContent::NotifyField { notications } => {
            pending.bitor_assign(notications);
            recv_notification_as_message(pending, message)
        },
        _ => ret,
    }
}

/// Begins a receive from the task `src`, or from any task.
pub fn ipc_recv(src: usize, pending: &mut Notify, message: &mut Message, message_addr: usize) -> (r: RecvPlan)
    requires
        src == IPC_ANY && old(pending)@ != Set::<int>::empty() ==> old(pending)@.contains(0) || old(pending)@.contains(1),
    ensures
        src != IPC_ANY || old(pending)@ == Set::<int>::empty() ==> r == RecvPlan::Trap(
            trap_of(SysCall::IPC, 0, src, message_addr, 0x20000),
        ) && *final(pending) == *old(pending) && *final(message) == *old(message),
        src == IPC_ANY && old(pending)@ != Set::<int>::empty() ==> r == RecvPlan::Done(0)
            && final(message).source == old(message).source && final(message).content == (if old(pending)@.contains(0) {
            MessageContent::NotifyTimer
        } else {
            MessageContent::NotifyIRQ
        }) && final(pending)@ == old(pending)@.remove(
            if old(pending)@.contains(0) {
                0int
            } else {
                1int
            },
        ),
{
    if src == IPC_ANY {
        return ip_recv_any(pending, message, message_addr);
    }
    RecvPlan::Trap(sys_ipc(0, src, message_addr, IPCFlags::recv()))
}

/// The trap that passes a message: to `dst`, from `src`, with the message at
/// the address `message`.
pub fn sys_ipc(dst: usize, src: usize, message: usize, flags: IPCFlags) -> (r: Trap)
    ensures
        r == trap_of(SysCall::IPC, dst, src, message, flags.bits),
        SysCall::of_number(r.id) == Some(SysCall::IPC),
{
    trap(SysCall::IPC, dst, src, message, flags.bits())
}

/// The trap that sends the message to `dst` and receives its answer.
pub fn ipc_call(dst: usize, message: usize) -> (r: Trap)
    ensures
        r == trap_of(SysCall::IPC, dst, dst, message, 0x30000),
{
    sys_ipc(dst, dst, message, IPCFlags::call())
}

/// The trap that sends the message to `dst` without waiting.
pub fn ipc_send_noblock(dst: usize, message: usize) -> (r: Trap)
    ensures
        r == trap_of(SysCall::IPC, dst, 0, message, 0x50000),
{
    let flags = IPCFlags::send().union(IPCFlags::non_block());
    proof {
        assert(0x10000usize | 0x40000usize == 0x50000usize) by (bit_vector);
    }
    sys_ipc(dst, 0, message, flags)
}

/// The trap that replies to `dst`: a send without waiting.
pub fn ipc_reply(dst: usize, message: usize) -> (r: Trap)
    ensures
        r == trap_of(SysCall::IPC, dst, 0, message, 0x50000),
{
    ipc_send_noblock(dst, message)
}

/// The trap that creates a task whose name is at the address `name`.
pub fn sys_task_create(name: usize, entry: usize, pager: usize) -> (r: Trap)
    ensures
        r == trap_of(SysCall::TaskCreate, name, entry, pager, 0),
{
    trap(SysCall::TaskCreate, name, entry, pager, 0)
}

/// The trap that writes `len` bytes at the address `buf` to the console.
pub fn serial_write(buf: usize, len: usize) -> (r: Trap)
    ensures
        r == trap_of(SysCall::SerialWrite, buf, len, 0, 0),
{
    trap(SysCall::SerialWrite, buf, len, 0, 0)
}

/// The trap that reads from the console into `len` bytes at the address `buf`.
pub fn serial_read(buf: usize, len: usize) -> (r: Trap)
    ensures
        r == trap_of(SysCall::SerialRead, buf, len, 0, 0),
{
    trap(SysCall::SerialRead, buf, len, 0, 0)
}

/// The trap that arms the timeout of the task, `ms` milliseconds from now.
pub fn sys_time(ms: usize) -> (r: Trap)
    ensures
        r == trap_of(SysCall::Time, ms, 0, 0, 0),
{
    trap(SysCall::Time, ms, 0, 0, 0)
}

/// The trap that asks for the time since boot.
pub fn sys_uptime() -> (r: Trap)
    ensures
        r == trap_of(SysCall::UPTime, 0, 0, 0, 0),
{
    trap(SysCall::UPTime, 0, 0, 0, 0)
}

/// The trap that ends the task.
pub fn exit() -> (r: Trap)
    ensures
        r == trap_of(SysCall::TaskExit, 0, 0, 0, 0),
{
    trap(SysCall::TaskExit, 0, 0, 0, 0)
}

/// The trap that switches the machine off.
pub fn shutdown() -> (r: Trap)
    ensures
        r == trap_of(SysCall::Shutdown, 0, 0, 0, 0),
{
    trap(SysCall::Shutdown, 0, 0, 0, 0)
}

/// The trap that destroys the task `tid`.
pub fn task_destory(tid: usize) -> (r: Trap)
    ensures
        r == trap_of(SysCall::TaskDestory, tid, 0, 0, 0),
{
    trap(SysCall::TaskDestory, tid, 0, 0, 0)
}

/// The trap that asks for the id of the task.
pub fn task_self() -> (r: Trap)
    ensures
        r == trap_of(SysCall::TaskSelf, 0, 0, 0, 0),
{
    trap(SysCall::TaskSelf, 0, 0, 0, 0)
}

/// The trap that allocates `size` bytes of physical memory for the task `tid`.
pub fn sys_pm_alloc(tid: usize, size: usize, flags: usize) -> (r: Trap)
    ensures
        r == trap_of(SysCall::PMAlloc, tid, size, flags, 0),
{
    trap(SysCall::PMAlloc, tid, size, flags, 0)
}

/// The trap that maps the address `uaddr` of the task `tid` to `paddr`.
pub fn sys_vm_map(tid: usize, uaddr: usize, paddr: usize, attrs: usize) -> (r: Trap)
    ensures
        r == trap_of(SysCall::VMMap, tid, uaddr, paddr, attrs),
{
    trap(SysCall::VMMap, tid, uaddr, paddr, attrs)
}

/// The trap that unmaps the address `uaddr` of the task `tid`.
pub fn sys_vm_unmap(tid: usize, uaddr: usize) -> (r: Trap)
    ensures
        r == trap_of(SysCall::VMUnmap, tid, uaddr, 0, 0),
{
    trap(SysCall::VMUnmap, tid, uaddr, 0, 0)
}

/// The trap that translates the address `vaddr` of the task.
pub fn translate_vaddr(vaddr: usize) -> (r: Trap)
    ensures
        r == trap_of(SysCall::TransVAddr, vaddr, 0, 0, 0),
{
    trap(SysCall::TransVAddr, vaddr, 0, 0, 0)
}

/// The physical address that a translation came back with, if it went well.
pub fn translate_vaddr_reply(ret: isize) -> (r: Option<usize>)
    ensures
        r == if ret > 0 {
            Some(ret as usize)
        } else {
            None
        },
{
    if ret > 0 {
        Some(ret as usize)
    } else {
        None
    }
}

/// The request that registers the task as the service `name` with the root server.
pub fn ipc_register(name: &str) -> (r: Request)
    requires
        name.spec_bytes().len() < NAME_LEN,
    ensures
        r.dst == VM_SERVER,
        r.message.source == 0,
        r.message.content matches MessageContent::ServiceRegisterMsg { name_buffer } && name_buffer@
            == padded(name.spec_bytes(), NAME_LEN as int),
{
    let mut message = Message::blank();
    let name_buffer = fill_buffer::<NAME_LEN>(name.as_bytes());
    message.content = MessageContent::ServiceRegisterMsg { name_buffer };
    Request { dst: VM_SERVER, message }
}

/// The request that asks the root server for the task of the service `name`.
pub fn service_lookup(name: &str) -> (r: Request)
    requires
        name.spec_bytes().len() < NAME_LEN,
    ensures
        r.dst == VM_SERVER,
        r.message.source == 0,
        r.message.content matches MessageContent::ServiceLookupMsg { name_buffer } && name_buffer@
            == padded(name.spec_bytes(), NAME_LEN as int),
{
    let mut message = Message::blank();
    let name_buffer = fill_buffer::<NAME_LEN>(name.as_bytes());
    message.content = MessageContent::ServiceLookupMsg { name_buffer };
    Request { dst: VM_SERVER, message }
}

/// The task that a lookup of a service came back with.
pub fn service_lookup_reply(ret: isize, message: &Message) -> (r: Option<usize>)
    ensures
        r == match message.content {
            MessageContent::ServiceLookupReplyMsg(reply) if ret >= 0 => Some(reply),
            _ => None,
        },
{
    if ret >= 0 {
        if let MessageContent::ServiceLookupReplyMsg(reply) = message.content {
            return Some(reply);
        }
    }
    None
}

/// The request that asks the root server for `size` bytes of memory.
pub fn alloc_memory(size: usize) -> (r: Request)
    ensures
        r == (Request {
            dst: VM_SERVER,
            message: Message { source: 0, content: MessageContent::VmAllocPhysicalMsg { size } },
        }),
{
    let mut message = Message::blank();
    message.content = MessageContent::VmAllocPhysicalMsg { size };
    Request { dst: VM_SERVER, message }
}

/// The memory that an allocation came back with: where it is mapped, and
/// where it lies.
pub fn alloc_memory_reply(ret: isize, message: &Message) -> (r: Option<(usize, usize)>)
    ensures
        r == match message.content {
            MessageContent::VmAllocPhysicalReplyMsg { uaddr, paddr } if ret >= 0 => Some((uaddr, paddr)),
            _ => None,
        },
{
    if ret >= 0 {
        if let MessageContent::VmAllocPhysicalReplyMsg { uaddr, paddr } = message.content {
            return Some((uaddr, paddr));
        }
    }
    None
}

/// The request that asks the root server to map `size` bytes of physical
/// memory at `paddr`.
pub fn map_paddr(paddr: usize, size: usize) -> (r: Request)
    ensures
        r == (Request {
            dst: VM_SERVER,
            message: Message {
                source: 0,
                content: MessageContent::VmMapPhysicalMsg { paddr, size, map_flags: 0 },
            },
        }),
{
    let mut message = Message::blank();
    message.content = MessageContent::VmMapPhysicalMsg { paddr, size, map_flags: 0 };
    Request { dst: VM_SERVER, message }
}

/// The address at which physical memory was mapped.
pub fn map_paddr_reply(ret: isize, message: &Message) -> (r: Option<usize>)
    ensures
        r == match message.content {
            MessageContent::VmMapPhysicalReplyMsg { uaddr } if ret >= 0 => Some(uaddr),
            _ => None,
        },
{
    if ret >= 0 {
        if let MessageContent::VmMapPhysicalReplyMsg { uaddr } = message.content {
            return Some(uaddr);
        }
    }
    None
}

/// The request that asks the block device `task_id` for its number of blocks.
pub fn get_block_capacity(task_id: usize) -> (r: Request)
    ensures
        r == (Request {
            dst: task_id,
            message: Message { source: 0, content: MessageContent::GetBlockCapacity },
        }),
{
    let mut message = Message::blank();
    message.content = MessageContent::GetBlockCapacity;
    Request { dst: task_id, message }
}

/// The number of blocks that a block device answered with.
pub fn get_block_capacity_reply(ret: isize, message: &Message) -> (r: Option<usize>)
    ensures
        r == match message.content {
            MessageContent::GetBlockCapacityReplyMsg(size) if ret >= 0 => Some(size),
            _ => None,
        },
{
    if ret >= 0 {
        if let MessageContent::GetBlockCapacityReplyMsg(size) = message.content {
            return Some(size);
        }
    }
    None
}

/// The request that asks the block device `task_id` for the block `block_index`.
pub fn block_read(task_id: usize, block_index: usize) -> (r: Request)
    ensures
        r == (Request {
            dst: task_id,
            message: Message { source: 0, content: MessageContent::ReadBlockMsg { block_index } },
        }),
{
    let mut message = Message::blank();
    message.content = MessageContent::ReadBlockMsg { block_index };
    Request { dst: task_id, message }
}

/// Copies the block that a block device answered with into `buf`.
pub fn block_read_reply(ret: isize, message: &Message, buf: &mut Vec<u8>) -> (r: Option<()>)
    requires
        old(buf)@.len() == BLOCK_SIZE,
    ensures
        match message.content {
            MessageContent::ReadBlockReplyMsg { buffer } if ret >= 0 => r == Some(()) && final(buf)@
                == buffer@,
            _ => r is None && final(buf)@ == old(buf)@,
        },
{
    if ret >= 0 {
        if let MessageContent::ReadBlockReplyMsg { buffer } = message.content {
            let mut i: usize = 0;
            while i < BLOCK_SIZE
                invariant
                    i <= BLOCK_SIZE,
                    buf@.len() == BLOCK_SIZE,
                    buffer@.len() == BLOCK_SIZE,
                    forall|j: int| 0 <= j < i ==> buf@[j] == buffer@[j],
                decreases BLOCK_SIZE - i,
            {
                buf[i] = buffer[i];
                i = i + 1;
            }
            proof {
                assert(buf@ =~= buffer@);
            }
            return Some(());
        }
    }
    None
}

/// The request that asks the block device `task_id` to write `buf` to the
/// block `block_index`.
pub fn block_write(task_id: usize, block_index: usize, buf: &[u8]) -> (r: Request)
    requires
        buf@.len() == BLOCK_SIZE,
    ensures
        r.dst == task_id,
        r.message.source == 0,
        r.message.content matches MessageContent::WriteBlockMsg { block_index: at, buffer } && at
            == block_index && buffer@ == buf@,
{
    let mut message = Message::blank();
    let buffer = fill_buffer::<BLOCK_SIZE>(buf);
    proof {
        assert(padded(buf@, BLOCK_SIZE as int) =~= buf@);
    }
    message.content = MessageContent::WriteBlockMsg { block_index, buffer };
    Request { dst: task_id, message }
}

/// Whether a block device has written a block.
pub fn block_write_reply(ret: isize, message: &Message) -> (r: Option<()>)
    ensures
        r is Some <==> ret >= 0 && message.content is WriteBlockReplyMsg,
{
    if ret >= 0 {
        if let MessageContent::WriteBlockReplyMsg = message.content {
            return Some(());
        }
    }
    None
}

/// The next request of a listing of the directory `dir` by the file system
/// `task_id`, after the names in `container` were read: it asks for the entry
/// that follows them, so that the entries are asked for in their order, none
/// twice and none passed over.
pub fn fs_read_dir(task_id: usize, dir: &str, container: &Vec<String>) -> (r: Request)
    requires
        dir.spec_bytes().len() <= PATH_LEN,
    ensures
        r.dst == task_id,
        r.message.source == 0,
        r.message.content matches MessageContent::FSReadDirMsg { path, index } && index
            == container@.len() && path@ == padded(dir.spec_bytes(), PATH_LEN as int),
{
    let mut message = Message::blank();
    let path = fill_buffer::<PATH_LEN>(dir.as_bytes());
    message.content = MessageContent::FSReadDirMsg { path, index: container.len() };
    Request { dst: task_id, message }
}

/// Adds the name of the directory entry that a file system answered with to
/// the names read so far, and says whether the next entry is to be asked
/// for: it is not where the call failed, and where the directory has no
/// entry at the place that was asked for.
pub fn fs_read_dir_reply(ret: isize, message: &Message, container: &mut Vec<String>) -> (more: bool)
    ensures
        more == (ret >= 0 && !({
            message.content matches MessageContent::FSReadDirReplyMsg { num, .. } && num == 0
        })),
        match message.content {
            MessageContent::FSReadDirReplyMsg { buffer, num } if ret >= 0 && num != 0 => final(container)@.len() == old(container)@.len() + 1 && final(container)@.last()@ == utf8_lossy(buffer@)
                && final(container)@.drop_last() == old(container)@,
            _ => final(container)@ == old(container)@,
        },
{
    if ret < 0 {
        return false;
    }
    if let MessageContent::FSReadDirReplyMsg { buffer, num } = message.content {
        if num == 0 {
            return false;
        }
        container.push(string_from_utf8_lossy(vstd::array::array_as_slice(&buffer)));
        proof {
            assert(container@.drop_last() =~= old(container)@);
        }
    }
    true
}

} // verus!
