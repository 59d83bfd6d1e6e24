//! The core of a small microkernel: tasks, their synchronous message passing,
//! their notifications and the forwarding of page faults to a pager.

pub mod abi;
pub mod async_ops;
pub mod consts;
pub mod create;
pub mod driver;
pub mod flags;
pub mod frame;
pub mod ipc;
pub mod kernel;
pub mod laws;
pub mod lifecycle;
pub mod message;
pub mod model;
pub mod notify;
pub mod page_table;
pub mod pager;
pub mod preserve;
pub mod root;
pub mod syscall;
pub mod task;
pub mod users;
pub mod utils;
