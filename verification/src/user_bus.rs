//! The bus of a user program on the node bus: every message is handed to the
//! kernel by an environment call, and each system call builds the message
//! that asks the right service for it.
//!
//! Buffers, strings and result cells are passed by their user address.
use vstd::prelude::*;
use crate::host_bus::Message;
use crate::config::{
    FILE_SYSTEM, FS_READ, FS_WRITE, TASK, TASK_EXEC, TASK_EXIT, TASK_FORK, TASK_GETPID,
    TASK_SUSPEND_RUNNEXT, TASK_WAITPID, TIMER, TIMER_GET,
};

verus! {

/// The registers loaded for an environment call into the kernel:
/// `a0`-`a2` (`x10`-`x12`) the body, `a3` (`x13`) the service, `a7` (`x17`)
/// the node.
#[derive(Clone, Copy, Debug, PartialEq, Eq)]
pub struct EcallRegisters {
    pub x10: usize,
    pub x11: usize,
    pub x12: usize,
    pub x13: usize,
    pub x17: usize,
}

/// The registers of the environment call that hands service `service_id` of
/// node `id` the arguments `args`.
pub open spec fn forward_spec(id: usize, service_id: usize, args: [usize; 3]) -> EcallRegisters {
    EcallRegisters { x10: args[0], x11: args[1], x12: args[2], x13: service_id, x17: id }
}

/// The registers of the environment call that hands service `service_id` of
/// node `id` the arguments `args`.
pub fn forward(id: usize, service_id: usize, args: [usize; 3]) -> (r: EcallRegisters)
    ensures
        r == forward_spec(id, service_id, args),
        r.x10 == args[0],
        r.x11 == args[1],
        r.x12 == args[2],
        r.x13 == service_id,
        r.x17 == id,
{
    EcallRegisters { x10: args[0], x11: args[1], x12: args[2], x13: service_id, x17: id }
}

/// The bus of a user program: it keeps no table and forwards every message.
pub struct Bus {}

impl Bus {
    /// The environment call that carries message `m` to the kernel.
    pub fn dispatch(&self, m: Message) -> (r: EcallRegisters)
        ensures
            r == forward_spec(m.node_id, m.service_id, m.body),
            r.x10 == m.body[0],
            r.x11 == m.body[1],
            r.x12 == m.body[2],
            r.x13 == m.service_id,
            r.x17 == m.node_id,
    {
        forward(m.node_id, m.service_id, m.body)
    }
}

/// The message of `sys_write`.
pub open spec fn sys_write_spec(fd: usize, buf: usize, len: usize) -> Message {
    Message { node_id: FILE_SYSTEM, service_id: FS_WRITE, body: [fd, buf, len] }
}

/// Write the `len` bytes at `buf` to descriptor `fd`.
pub fn sys_write(fd: usize, buf: usize, len: usize) -> (m: Message)
    ensures
        m == sys_write_spec(fd, buf, len),
        m.node_id == FILE_SYSTEM,
        m.service_id == FS_WRITE,
        m.body == [fd, buf, len],
{
    Message { node_id: FILE_SYSTEM, service_id: FS_WRITE, body: [fd, buf, len] }
}

/// The message of `sys_read`.
pub open spec fn sys_read_spec(fd: usize, buf: usize, len: usize) -> Message {
    Message { node_id: FILE_SYSTEM, service_id: FS_READ, body: [fd, buf, len] }
}

/// Read from descriptor `fd` into the `len` bytes at `buf`.
pub fn sys_read(fd: usize, buf: usize, len: usize) -> (m: Message)
    ensures
        m == sys_read_spec(fd, buf, len),
        m.node_id == FILE_SYSTEM,
        m.service_id == FS_READ,
        m.body == [fd, buf, len],
{
    Message { node_id: FILE_SYSTEM, service_id: FS_READ, body: [fd, buf, len] }
}

/// The message of `sys_exit`.
pub open spec fn sys_exit_spec(exit_code: i32) -> Message {
    Message { node_id: TASK, service_id: TASK_EXIT, body: [exit_code as usize, 0usize, 0] }
}

/// Exit the current application with `exit_code`.
pub fn sys_exit(exit_code: i32) -> (m: Message)
    ensures
        m == sys_exit_spec(exit_code),
        m.node_id == TASK,
        m.service_id == TASK_EXIT,
        m.body == [exit_code as usize, 0, 0],
{
    Message { node_id: TASK, service_id: TASK_EXIT, body: [exit_code as usize, 0, 0] }
}

/// The message of `sys_yield`.
pub open spec fn sys_yield_spec() -> Message {
    Message { node_id: TASK, service_id: TASK_SUSPEND_RUNNEXT, body: [0usize, 0usize, 0] }
}

/// Give up the processor.
pub fn sys_yield() -> (m: Message)
    ensures
        m == sys_yield_spec(),
        m.node_id == TASK,
        m.service_id == TASK_SUSPEND_RUNNEXT,
        m.body == [0usize, 0, 0],
{
    Message { node_id: TASK, service_id: TASK_SUSPEND_RUNNEXT, body: [0, 0, 0] }
}

/// The message of `sys_get_time`.
pub open spec fn sys_get_time_spec() -> Message {
    Message { node_id: TIMER, service_id: TIMER_GET, body: [0usize, 0usize, 0] }
}

/// Ask for the time in milliseconds.
pub fn sys_get_time() -> (m: Message)
    ensures
        m == sys_get_time_spec(),
        m.node_id == TIMER,
        m.service_id == TIMER_GET,
        m.body == [0usize, 0, 0],
{
    Message { node_id: TIMER, service_id: TIMER_GET, body: [0, 0, 0] }
}

/// The message of `sys_getpid`.
pub open spec fn sys_getpid_spec() -> Message {
    Message { node_id: TASK, service_id: TASK_GETPID, body: [0usize, 0usize, 0] }
}

/// Ask for the process id.
pub fn sys_getpid() -> (m: Message)
    ensures
        m == sys_getpid_spec(),
        m.node_id == TASK,
        m.service_id == TASK_GETPID,
        m.body == [0usize, 0, 0],
{
    Message { node_id: TASK, service_id: TASK_GETPID, body: [0, 0, 0] }
}

/// The message of `sys_fork`.
pub open spec fn sys_fork_spec() -> Message {
    Message { node_id: TASK, service_id: TASK_FORK, body: [0usize, 0usize, 0] }
}

/// Fork the current process.
pub fn sys_fork() -> (m: Message)
    ensures
        m == sys_fork_spec(),
        m.node_id == TASK,
        m.service_id == TASK_FORK,
        m.body == [0usize, 0, 0],
{
    Message { node_id: TASK, service_id: TASK_FORK, body: [0, 0, 0] }
}

/// The message of `sys_exec`.
pub open spec fn sys_exec_spec(path: usize) -> Message {
    Message { node_id: TASK, service_id: TASK_EXEC, body: [path, 0usize, 0] }
}

/// Replace the current program by the one named by the string at `path`.
pub fn sys_exec(path: usize) -> (m: Message)
    ensures
        m == sys_exec_spec(path),
        m.node_id == TASK,
        m.service_id == TASK_EXEC,
        m.body == [path, 0usize, 0],
{
    Message { node_id: TASK, service_id: TASK_EXEC, body: [path, 0, 0] }
}

/// The message of `sys_waitpid`.
pub open spec fn sys_waitpid_spec(pid: isize, exit_code: usize) -> Message {
    Message { node_id: TASK, service_id: TASK_WAITPID, body: [pid as usize, exit_code, 0usize] }
}

/// Wait for child `pid` (-1: any child); its exit code goes to `exit_code`.
pub fn sys_waitpid(pid: isize, exit_code: usize) -> (m: Message)
    ensures
        m == sys_waitpid_spec(pid, exit_code),
        m.node_id == TASK,
        m.service_id == TASK_WAITPID,
        m.body == [pid as usize, exit_code, 0],
{
    Message { node_id: TASK, service_id: TASK_WAITPID, body: [pid as usize, exit_code, 0] }
}

} // verus!
