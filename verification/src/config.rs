//! Node numbers, service numbers and system-call numbers shared by the bus,
//! the services and user programs.
use vstd::prelude::*;

verus! {

/// Node (module) number of the file-system service.
pub const FILE_SYSTEM: usize = 0;
/// File-system service: write a user buffer to the console.
pub const FS_WRITE: usize = 64;
/// File-system service: initialise and register the service.
pub const FS_INIT: usize = 11;
/// File-system service: read one byte from the console.
pub const FS_READ: usize = 1;
/// File-system service: write a vector of user buffers to the console.
pub const FS_WRITEV: usize = 66;

/// Node (module) number of the task manager.
pub const TASK: usize = 2;
pub const TASK_EXIT_RUNNEXT: usize = 22;
pub const TASK_SUSPEND_RUNNEXT: usize = 23;
pub const TASK_EXIT: usize = 24;
pub const TASK_INIT: usize = 25;
pub const TASK_LOADAPP: usize = 26;
pub const TASK_RUNFIRST: usize = 27;
pub const TASK_TOKEN: usize = 28;
pub const TASK_TRAP_CX: usize = 29;
pub const TASK_ENVCALL: usize = 21;
pub const TASK_GETPID: usize = 211;
pub const TASK_FORK: usize = 212;
pub const TASK_EXEC: usize = 213;
pub const TASK_WAITPID: usize = 214;

/// Node (module) number of the timer.
pub const TIMER: usize = 1;
pub const TIMER_GET: usize = 31;
pub const TIMER_SETNEXT: usize = 32;
pub const TIMER_INIT: usize = 33;
pub const TIMER_SET: usize = 34;

/// Frequency of the machine timer, in ticks per second.
pub const CLOCK_FREQ: usize = 12500000;

/// Module numbers of the virtual-memory services.
pub const VIRTUALMEMORY_WRITE: usize = 3;
pub const VIRTUALMEMORY_WRITEV: usize = 6;
pub const VIRTUALMEMORY_READ: usize = 4;

/// Node number of the memory manager on the node bus, registered after the
/// task manager.
pub const MEMORY_MANAGER: usize = 3;
/// Services of the memory manager: console write, vectored console write
/// and console read on user memory, numbered as the virtual-memory services
/// that do the same work on the module bus.
pub const MEMORY_WRITE: usize = VIRTUALMEMORY_WRITE;
pub const MEMORY_WRITEV: usize = VIRTUALMEMORY_WRITEV;
pub const MEMORY_READ: usize = VIRTUALMEMORY_READ;

/// Linux system-call numbers understood by the task manager.
pub const LINUX_SET_TID_ADDRESS: usize = 96;
pub const LINUX_WRITE: usize = 64;
pub const LINUX_EXIT: usize = 93;
pub const LINUX_EXIT_GROUP: usize = 94;
pub const LINUX_CLOCK_GETTIME: usize = 113;
pub const LINUX_GETPID: usize = 172;
pub const LINUX_FORK: usize = 220;
pub const LINUX_EXEC: usize = 221;
pub const LINUX_WAITPID: usize = 260;
pub const LINUX_READ: usize = 63;
pub const LINUX_MAP: usize = 222;
pub const LINUX_UNMAP: usize = 215;

pub const CLOCK_WRITE: usize = 5;

pub const USER_STACK_SIZE: usize = 4096 * 4;
pub const KERNEL_STACK_SIZE: usize = 4096 * 4;
pub const KERNEL_HEAP_SIZE: usize = 0x20_0000;

pub const PAGE_SIZE: usize = 0x1000;
pub const PAGE_SIZE_BITS: usize = 0xc;

/// Virtual address of the trampoline page (the last page of the address space).
pub const TRAMPOLINE: usize = usize::MAX - PAGE_SIZE + 1;
/// Virtual address of the trap context page, just below the trampoline.
pub const TRAP_CONTEXT: usize = TRAMPOLINE - PAGE_SIZE;
pub const MEMORY_END: usize = 0xff000000;

} // verus!
