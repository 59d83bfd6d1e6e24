//! The layout of the address space of a user task.

use vstd::prelude::*;

verus! {

/// The number of pages of the stack of a user task.
pub const USER_STACK_PAGES: usize = 20;

/// The address of the top of the stack of a user task.
pub const USER_STACK_TOP_ADDR: usize = 0xF000_0000;

} // verus!
