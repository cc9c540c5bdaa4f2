//! System calls of a user program on the module bus: each builds the
//! message that asks the right service for the call.
//!
//! Buffers, strings and result cells are passed by their user address.
use vstd::prelude::*;
use crate::bus::Message;
use crate::config::{
    FILE_SYSTEM, FS_READ, FS_WRITE, TASK, TASK_EXEC, TASK_EXIT, TASK_FORK, TASK_GETPID,
    TASK_SUSPEND_RUNNEXT, TASK_WAITPID, TIMER, TIMER_GET,
};

verus! {

/// The message of `sys_write`.
pub open spec fn sys_write_spec(buf: usize, len: usize) -> Message {
    Message { mod_id: FILE_SYSTEM, body: [FS_WRITE, buf, len] }
}

/// Write the `len` bytes at `buf` to the console.
pub fn sys_write(buf: usize, len: usize) -> (m: Message)
    ensures
        m == sys_write_spec(buf, len),
        m.mod_id == FILE_SYSTEM,
        m.body == [FS_WRITE, buf, len],
{
    Message { mod_id: FILE_SYSTEM, body: [FS_WRITE, buf, len] }
}

/// The message of `sys_read`.
pub open spec fn sys_read_spec(fd: usize, buf: usize, len: usize) -> Message {
    Message { mod_id: FILE_SYSTEM, body: [FS_READ, buf, len] }
}

/// Read into the `len` bytes at `buf`; the descriptor is not sent.
pub fn sys_read(fd: usize, buf: usize, len: usize) -> (m: Message)
    ensures
        m == sys_read_spec(fd, buf, len),
        m.mod_id == FILE_SYSTEM,
        m.body == [FS_READ, buf, len],
{
    Message { mod_id: FILE_SYSTEM, body: [FS_READ, buf, len] }
}

/// The message of `sys_exit`.
pub open spec fn sys_exit_spec(exit_code: i32) -> Message {
    Message { mod_id: TASK, body: [TASK_EXIT, exit_code as usize, 0usize] }
}

/// Exit the current application with `exit_code`.
pub fn sys_exit(exit_code: i32) -> (m: Message)
    ensures
        m == sys_exit_spec(exit_code),
        m.mod_id == TASK,
        m.body == [TASK_EXIT, exit_code as usize, 0],
{
    Message { mod_id: TASK, body: [TASK_EXIT, exit_code as usize, 0] }
}

/// The message of `sys_yield`.
pub open spec fn sys_yield_spec() -> Message {
    Message { mod_id: TASK, body: [TASK_SUSPEND_RUNNEXT, 0usize, 0] }
}

/// Give up the processor.
pub fn sys_yield() -> (m: Message)
    ensures
        m == sys_yield_spec(),
        m.mod_id == TASK,
        m.body == [TASK_SUSPEND_RUNNEXT, 0usize, 0],
{
    Message { mod_id: TASK, body: [TASK_SUSPEND_RUNNEXT, 0, 0] }
}

/// The message of `sys_get_time`.
pub open spec fn sys_get_time_spec() -> Message {
    Message { mod_id: TIMER, body: [TIMER_GET, 0usize, 0] }
}

/// Ask for the time in milliseconds.
pub fn sys_get_time() -> (m: Message)
    ensures
        m == sys_get_time_spec(),
        m.mod_id == TIMER,
        m.body == [TIMER_GET, 0usize, 0],
{
    Message { mod_id: TIMER, body: [TIMER_GET, 0, 0] }
}

/// The message of `sys_getpid`.
pub open spec fn sys_getpid_spec() -> Message {
    Message { mod_id: TASK, body: [TASK_GETPID, 0usize, 0] }
}

/// Ask for the process id.
pub fn sys_getpid() -> (m: Message)
    ensures
        m == sys_getpid_spec(),
        m.mod_id == TASK,
        m.body == [TASK_GETPID, 0usize, 0],
{
    Message { mod_id: TASK, body: [TASK_GETPID, 0, 0] }
}

/// The message of `sys_fork`.
pub open spec fn sys_fork_spec() -> Message {
    Message { mod_id: TASK, body: [TASK_FORK, 0usize, 0] }
}

/// Fork the current process.
pub fn sys_fork() -> (m: Message)
    ensures
        m == sys_fork_spec(),
        m.mod_id == TASK,
        m.body == [TASK_FORK, 0usize, 0],
{
    Message { mod_id: TASK, body: [TASK_FORK, 0, 0] }
}

/// The message of `sys_exec`.
pub open spec fn sys_exec_spec(path: usize) -> Message {
    Message { mod_id: TASK, body: [TASK_EXEC, path, 0usize] }
}

/// Replace the current program by the one named by the string at `path`.
pub fn sys_exec(path: usize) -> (m: Message)
    ensures
        m == sys_exec_spec(path),
        m.mod_id == TASK,
        m.body == [TASK_EXEC, path, 0usize],
{
    Message { mod_id: TASK, body: [TASK_EXEC, path, 0] }
}

/// The message of `sys_waitpid`.
pub open spec fn sys_waitpid_spec(pid: isize, exit_code: usize) -> Message {
    Message { mod_id: TASK, body: [TASK_WAITPID, pid as usize, exit_code] }
}

/// Wait for child `pid` (-1: any child); its exit code goes to `exit_code`.
pub fn sys_waitpid(pid: isize, exit_code: usize) -> (m: Message)
    ensures
        m == sys_waitpid_spec(pid, exit_code),
        m.mod_id == TASK,
        m.body == [TASK_WAITPID, pid as usize, exit_code],
{
    Message { mod_id: TASK, body: [TASK_WAITPID, pid as usize, exit_code] }
}

} // verus!
