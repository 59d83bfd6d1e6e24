//! What a task in user mode uses to talk to the kernel and to the servers:
//! the system calls as the values that go into the registers, the messages
//! of the requests to the servers together with the reading of their replies,
//! and the parts of the servers that work on plain values.

pub mod fatfs_shim;
pub mod ram_disk;
pub mod servers;
pub mod syscall;
