//! The message that one task passes to another: who it comes from and what it
//! holds. The kernel reads the three kinds that it writes itself (a page
//! fault, the reply to one, a set of notifications); every other kind it
//! carries from sender to receiver without looking into it.

use vstd::prelude::*;
use crate::abi::NAME_LEN;
use crate::flags::PageFaultReason;
use crate::notify::Notify;

verus! {

/// The size of a block of a block device.
pub const BLOCK_SIZE: usize = 0x200;

/// The length of the buffer that carries a path.
pub const PATH_LEN: usize = 128;

/// What a message holds.
#[derive(Debug, Clone, Copy, PartialEq, Eq)]
#[allow(inconsistent_fields)]
pub enum MessageContent {
    /// The task `tid` could not use the address `uaddr` at the instruction `ip`.
    PageFault { tid: usize, uaddr: usize, ip: usize, fault: PageFaultReason },
    /// The pager has dealt with a page fault.
    PageFaultReply,
    /// The notifications that were pending.
    NotifyField { notications: Notify },
    /// A ping.
    PingMsg(usize),
    /// The answer to a ping.
    PingReplyMsg(usize),
    /// An interrupt has occurred.
    NotifyIRQ,
    /// A timeout has passed.
    NotifyTimer,
    /// Registers the sender as the service of this name.
    ServiceRegisterMsg { name_buffer: [u8; NAME_LEN] },
    /// The service was registered.
    ServiceRegisterReplyMsg,
    /// Asks for the task that serves this name.
    ServiceLookupMsg { name_buffer: [u8; NAME_LEN] },
    /// The task that serves the name that was asked for.
    ServiceLookupReplyMsg(usize),
    /// Asks for physical memory of this size.
    VmAllocPhysicalMsg { size: usize },
    /// The memory that was allocated: where it is mapped and where it lies.
    VmAllocPhysicalReplyMsg { uaddr: usize, paddr: usize },
    /// Asks to map physical memory.
    VmMapPhysicalMsg { paddr: usize, size: usize, map_flags: usize },
    /// Where the physical memory was mapped.
    VmMapPhysicalReplyMsg { uaddr: usize },
    /// Asks a block device for its number of blocks.
    GetBlockCapacity,
    /// The number of blocks of a block device.
    GetBlockCapacityReplyMsg(usize),
    /// Asks a block device for a block.
    ReadBlockMsg { block_index: usize },
    /// A block that was read.
    ReadBlockReplyMsg { buffer: [u8; BLOCK_SIZE] },
    /// Asks a block device to write a block.
    WriteBlockMsg { block_index: usize, buffer: [u8; BLOCK_SIZE] },
    /// The block was written.
    WriteBlockReplyMsg,
    /// Asks a file system for the entry `index` of a directory.
    FSReadDirMsg { path: [u8; PATH_LEN], index: usize },
    /// The name of a directory entry; `num` is 0 where there is no such entry.
    FSReadDirReplyMsg { buffer: [u8; PATH_LEN], num: usize },
    /// Nothing.
    Nothing,
}

/// A message: the task it comes from, and what it holds.
#[derive(Debug, Clone, Copy, PartialEq, Eq)]
pub struct Message {
    pub source: usize,
    pub content: MessageContent,
}

impl Message {
    /// The message that holds nothing and comes from nobody.
    pub open spec fn spec_blank() -> Message {
        Message { source: 0, content: MessageContent::Nothing }
    }

    /// A message that holds nothing and comes from nobody.
    pub fn blank() -> (r: Message)
        ensures
            r == Message::spec_blank(),
    {
        Message { source: 0, content: MessageContent::Nothing }
    }
}

} // verus!
