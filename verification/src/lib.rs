//! HierarBus: the verified core of a bus-structured teaching kernel.
//!
//! Kernel services (file system, timer, task manager, virtual memory) are
//! nodes on a message bus.  This crate holds the decisions that the kernel
//! makes: how a message is routed, how a service request or a system call is
//! decoded, how replies and user-visible values are computed.  The code that
//! touches hardware registers, user memory or global locks lives outside it.
use vstd::prelude::*;

pub mod config;
pub mod bus;
pub mod host_bus;
pub mod trap;
pub mod forward;
pub mod user_syscall;
pub mod user_bus;
pub mod virtual_memory;
pub mod timer;
pub mod filesystem;
pub mod task;
pub mod error;
pub mod net;
pub mod socket;
pub mod laws;

verus! {
} // verus!
