//! Properties that relate several parts of the kernel: what a registration
//! makes reachable, what a system call is answered by, how traps end, and
//! what a built datagram lets its receiver check.
use vstd::prelude::*;
use crate::bus;
use crate::host_bus;
use crate::config::{
    FILE_SYSTEM, FS_READ, FS_WRITE, TASK, TASK_EXIT_RUNNEXT, TIMER, TIMER_GET, TIMER_SETNEXT,
    TASK_SUSPEND_RUNNEXT, TASK_ENVCALL, TASK_TOKEN, MEMORY_MANAGER, MEMORY_READ, MEMORY_WRITE,
    MEMORY_WRITEV,
};
use crate::task::{TaskService, task_service_spec, fixed_reply_spec};
use crate::timer::{TimerService, timer_service_spec};
use crate::user_bus;
use crate::user_syscall;
use crate::filesystem::{FsAction, FsCall, FsRequest, fs_action_spec, fs_call_request_spec, fs_request_spec};
use crate::virtual_memory::{UserBuffer, user_buffer_spec};
use crate::config::{VIRTUALMEMORY_WRITE, VIRTUALMEMORY_READ};
use crate::trap::{TrapCause, TrapKind, trap_kind_spec};
use crate::task::{ChildStatus, reapable, mmap_valid, EnvCall, envcall_spec, mmap_length_spec, memory_request_spec, writes_return_spec, immediate_return_spec};
use crate::error::{SysError, code_spec, from_code_spec, message_spec, has_description, lemma_description_keys};
use crate::socket::{fold_carries, ipv4_header_spec, with_checksum, word_sum, ipv4_checksum_spec};
use crate::config::{
    FS_WRITEV, LINUX_CLOCK_GETTIME, LINUX_EXEC, LINUX_EXIT, LINUX_EXIT_GROUP, LINUX_FORK,
    LINUX_GETPID, LINUX_MAP, LINUX_READ, LINUX_SET_TID_ADDRESS, LINUX_UNMAP, LINUX_WAITPID,
    LINUX_WRITE,
};

verus! {

// ---------------------------------------------------------------------------
// Registration and routing
// ---------------------------------------------------------------------------

/// On the node bus, the node registered last answers to the node number that
/// equals the table length before its registration: a message to that
/// number is delivered to its slot with its service number and body
/// unchanged.
pub proof fn registered_node_is_reached<H>(before: Seq<Option<H>>, node: H, m: host_bus::Message)
    requires
        m.node_id == before.len(),
    ensures
        before.push(Some(node))[m.node_id as int] == Some(node),
        host_bus::route_spec(before.push(Some(node)), m) == (host_bus::Route::Deliver {
            index: m.node_id,
            service_id: m.service_id,
            body: m.body,
        }),
{
}

/// On the node bus, registering a node changes the route of no message
/// addressed to an earlier node.
pub proof fn registration_keeps_routes<H>(before: Seq<Option<H>>, node: H, m: host_bus::Message)
    requires
        m.node_id < before.len(),
    ensures
        host_bus::route_spec(before.push(Some(node)), m) == host_bus::route_spec(before, m),
{
}

/// On the node bus, a message is only ever delivered to a slot that holds a
/// handler, and always to the slot its node number names.
pub proof fn delivery_only_to_registered<H>(table: Seq<Option<H>>, m: host_bus::Message)
    ensures
        host_bus::route_spec(table, m) matches host_bus::Route::Deliver { index, .. } ==> index
            == m.node_id && index < table.len() && table[index as int] is Some,
{
}

/// At boot the file system, the timer, the task manager and the memory
/// manager are registered in that order on an empty node bus: each then
/// answers to the node number that the configuration gives it.
pub proof fn boot_registration_matches_node_numbers<H>(fs: H, timer: H, task: H, memory: H, m: host_bus::Message)
    ensures
        ({
            let table = Seq::<Option<H>>::empty().push(Some(fs)).push(Some(timer)).push(Some(task)).push(
                Some(memory),
            );
            &&& table[FILE_SYSTEM as int] == Some(fs)
            &&& table[TIMER as int] == Some(timer)
            &&& table[TASK as int] == Some(task)
            &&& table[MEMORY_MANAGER as int] == Some(memory)
            &&& (m.node_id == FILE_SYSTEM || m.node_id == TIMER || m.node_id == TASK || m.node_id
                == MEMORY_MANAGER) ==> host_bus::route_spec(table, m) == (host_bus::Route::Deliver {
                index: m.node_id,
                service_id: m.service_id,
                body: m.body,
            })
        }),
{
}

/// On the module bus, module numbers below 256 are forwarded to the host
/// unchanged, whatever the register table holds.
pub proof fn low_modules_are_forwarded<H>(table: Seq<Option<H>>, m: bus::Message)
    requires
        m.mod_id < bus::LOCAL_BASE,
    ensures
        bus::route_spec(table, m) == (bus::Route::Forward { mod_id: m.mod_id, body: m.body }),
{
}

/// On the module bus, the slot that `register` reserves answers to module
/// number `256 + index`: the message is delivered there once a handler fills
/// the slot, and is answered 0 while the slot is empty.
pub proof fn reserved_slot_is_reached<H>(table: Seq<Option<H>>, index: usize, m: bus::Message)
    requires
        index < table.len(),
        m.mod_id == bus::LOCAL_BASE + index,
        index <= isize::MAX,
    ensures
        table[index as int] is Some ==> bus::route_spec(table, m) == (bus::Route::Deliver {
            index,
            body: m.body,
        }),
        table[index as int] is None ==> bus::route_spec(table, m) == bus::Route::Vacant,
{
}

/// On the module bus, a module number of 256 or more names slot
/// `number - 256`: past the end of the register table it is a wrong module
/// (the kernel stops), on an empty slot it is answered 0, and on a filled
/// slot it is delivered there.
pub proof fn local_modules_name_their_slot<H>(table: Seq<Option<H>>, m: bus::Message)
    requires
        m.mod_id >= 256,
        m.mod_id - 256 <= isize::MAX,
    ensures
        m.mod_id - 256 >= table.len() ==> bus::route_spec(table, m) == bus::Route::WrongModule,
        m.mod_id - 256 < table.len() && table[m.mod_id - 256] is None ==> bus::route_spec(table, m)
            == bus::Route::Vacant,
        m.mod_id - 256 < table.len() && table[m.mod_id - 256] is Some ==> bus::route_spec(table, m)
            == (bus::Route::Deliver { index: (m.mod_id - 256) as usize, body: m.body }),
{
}

// ---------------------------------------------------------------------------
// System calls and the services that answer them
// ---------------------------------------------------------------------------

proof fn exit_code_survives_the_bus(c: i32)
    ensures
        (c as usize) as i32 == c,
{
    assert((c as usize) as i32 == c) by (bit_vector);
}

proof fn pid_survives_the_bus(p: isize)
    ensures
        (p as usize) as isize == p,
{
    assert((p as usize) as isize == p) by (bit_vector);
}

/// Each task system call of a user program on the node bus is addressed to
/// the task manager and decoded there as the call it was made for, with its
/// arguments unchanged: exit code, program path, awaited pid and result cell.
pub proof fn user_task_calls_reach_the_task_manager(exit_code: i32, path: usize, pid: isize, cell: usize)
    ensures
        ({
            let m = user_bus::sys_exit_spec(exit_code);
            m.node_id == TASK && task_service_spec(m.service_id, m.body) == (TaskService::Exit {
                exit_code,
            })
        }),
        ({
            let m = user_bus::sys_exec_spec(path);
            m.node_id == TASK && task_service_spec(m.service_id, m.body) == (TaskService::Exec {
                path,
            })
        }),
        ({
            let m = user_bus::sys_waitpid_spec(pid, cell);
            m.node_id == TASK && task_service_spec(m.service_id, m.body) == (TaskService::Waitpid {
                pid,
                exit_code_ptr: cell,
            })
        }),
        task_service_spec(user_bus::sys_yield_spec().service_id, user_bus::sys_yield_spec().body)
            == TaskService::SuspendRunNext,
        task_service_spec(user_bus::sys_getpid_spec().service_id, user_bus::sys_getpid_spec().body)
            == TaskService::GetPid,
        task_service_spec(user_bus::sys_fork_spec().service_id, user_bus::sys_fork_spec().body)
            == TaskService::Fork,
        user_bus::sys_yield_spec().node_id == TASK,
        user_bus::sys_getpid_spec().node_id == TASK,
        user_bus::sys_fork_spec().node_id == TASK,
{
    exit_code_survives_the_bus(exit_code);
    pid_survives_the_bus(pid);
}

/// The time system call of a user program on the node bus is addressed to
/// the timer and decoded there as a request for the time.
pub proof fn user_time_call_reaches_the_timer()
    ensures
        user_bus::sys_get_time_spec().node_id == TIMER,
        user_bus::sys_get_time_spec().service_id == TIMER_GET,
        timer_service_spec(user_bus::sys_get_time_spec().service_id) == Some(TimerService::Get),
{
}

/// A console write of a user program on the module bus is addressed to the
/// file system and decoded there as a write of the user's own buffer; the
/// file system hands it to the console-write service, which reads back that
/// very buffer in the address space of the token the task manager gave, and
/// the call's reply is the length.  A one-byte console read goes the same
/// way to the console-read service.
pub proof fn user_console_calls_reach_the_console(buf: usize, len: usize, fd: usize, token: usize)
    ensures
        user_syscall::sys_write_spec(buf, len).mod_id == FILE_SYSTEM,
        fs_request_spec(user_syscall::sys_write_spec(buf, len).body) == Some(
            FsRequest::Write { buf, len },
        ),
        fs_action_spec(FsRequest::Write { buf, len }) matches FsAction::Call(c) && c.module
            == VIRTUALMEMORY_WRITE && c.fixed_reply == Some(len as isize) && user_buffer_spec(
            fs_call_request_spec(c, token).body,
        ) == (UserBuffer { token, addr: buf, len }),
        user_syscall::sys_read_spec(fd, buf, len).mod_id == FILE_SYSTEM,
        fs_request_spec(user_syscall::sys_read_spec(fd, buf, len).body) == Some(
            FsRequest::Read { buf, len },
        ),
        len == 1 ==> (fs_action_spec(FsRequest::Read { buf, len }) matches FsAction::Call(c)
            && c.module == VIRTUALMEMORY_READ && c.fixed_reply is None && user_buffer_spec(
            fs_call_request_spec(c, token).body,
        ) == (UserBuffer { token, addr: buf, len })),
{
}

/// On the module bus of a user program, every system call is forwarded to the
/// host, the kernel, unchanged, whatever the program has registered locally.
pub proof fn user_calls_leave_the_program<H>(
    table: Seq<Option<H>>,
    buf: usize,
    len: usize,
    fd: usize,
    exit_code: i32,
    path: usize,
    pid: isize,
    cell: usize,
)
    ensures
        ({
            let ms = seq![
                user_syscall::sys_write_spec(buf, len),
                user_syscall::sys_read_spec(fd, buf, len),
                user_syscall::sys_exit_spec(exit_code),
                user_syscall::sys_yield_spec(),
                user_syscall::sys_get_time_spec(),
                user_syscall::sys_getpid_spec(),
                user_syscall::sys_fork_spec(),
                user_syscall::sys_exec_spec(path),
                user_syscall::sys_waitpid_spec(pid, cell),
            ];
            forall|i: int|
                0 <= i < ms.len() ==> bus::route_spec(table, #[trigger] ms[i]) == (bus::Route::Forward {
                    mod_id: ms[i].mod_id,
                    body: ms[i].body,
                })
        }),
{
}

/// The task manager answers a fork, exec or wait request exactly as the
/// stand-alone call does: it decodes the call with its arguments, whatever
/// the rest of the body, and replies the call's own outcome.
pub proof fn task_requests_are_the_standalone_calls(b: [usize; 3])
    ensures
        task_service_spec(crate::config::TASK_FORK, b) == TaskService::Fork,
        task_service_spec(crate::config::TASK_EXEC, b) == (TaskService::Exec { path: b[0] }),
        task_service_spec(crate::config::TASK_WAITPID, b) == (TaskService::Waitpid {
            pid: b[0] as isize,
            exit_code_ptr: b[1],
        }),
        fixed_reply_spec(TaskService::Fork) is None,
        fixed_reply_spec(TaskService::Exec { path: b[0] }) is None,
        fixed_reply_spec(TaskService::Waitpid { pid: b[0] as isize, exit_code_ptr: b[1] }) is None,
{
}

/// A console write, vectored write or read from a user program is one
/// message to the memory manager, carrying the user's page-table token and
/// the call's two arguments, and the manager's reply is what the program
/// gets back in `a0`.
pub proof fn memory_calls_reach_the_memory_manager(x: Seq<usize>, token: usize)
    requires
        x.len() == 32,
        x[17] == LINUX_WRITE || x[17] == FS_WRITEV || x[17] == LINUX_READ,
    ensures
        memory_request_spec(envcall_spec(x), token) == Some(host_bus::Message {
            node_id: MEMORY_MANAGER,
            service_id: if x[17] == LINUX_WRITE {
                MEMORY_WRITE
            } else if x[17] == FS_WRITEV {
                MEMORY_WRITEV
            } else {
                MEMORY_READ
            },
            body: [token, x[11], x[12]],
        }),
        writes_return_spec(envcall_spec(x)),
        immediate_return_spec(envcall_spec(x)) is None,
{
}

// ---------------------------------------------------------------------------
// Traps
// ---------------------------------------------------------------------------

/// On the node bus, a user memory fault ends the application with exit code
/// -2 and an illegal instruction with -3: the message the trap handler sends
/// is decoded by the task manager as ending the current task with that code
/// and running the next.
pub proof fn faults_end_the_application(cause: TrapCause)
    ensures
        trap_kind_spec(cause) == Some(TrapKind::MemoryFault) ==> ({
            let m = host_bus::trap_messages_spec(TrapKind::MemoryFault)[0];
            m.node_id == TASK && task_service_spec(m.service_id, m.body) == (TaskService::ExitRunNext {
                exit_code: -2i32,
            })
        }),
        trap_kind_spec(cause) == Some(TrapKind::IllegalInstruction) ==> ({
            let m = host_bus::trap_messages_spec(TrapKind::IllegalInstruction)[0];
            m.node_id == TASK && task_service_spec(m.service_id, m.body) == (TaskService::ExitRunNext {
                exit_code: -3i32,
            })
        }),
        host_bus::trap_messages_spec(TrapKind::MemoryFault).len() == 1,
        host_bus::trap_messages_spec(TrapKind::IllegalInstruction).len() == 1,
{
    exit_code_survives_the_bus(-2i32);
    exit_code_survives_the_bus(-3i32);
}

/// On the node bus, a timer interrupt first re-arms the timer, then makes the
/// task manager suspend the current task and run the next; a system call
/// trap makes the task manager serve the call.
pub proof fn timer_and_calls_reach_their_services()
    ensures
        ({
            let ms = host_bus::trap_messages_spec(TrapKind::Timer);
            &&& ms.len() == 2
            &&& ms[0].node_id == TIMER && ms[0].service_id == TIMER_SETNEXT
            &&& ms[1].node_id == TASK && task_service_spec(ms[1].service_id, ms[1].body)
                == TaskService::SuspendRunNext
        }),
        ({
            let ms = host_bus::trap_messages_spec(TrapKind::EnvCall);
            &&& ms.len() == 1
            &&& ms[0].node_id == TASK && task_service_spec(ms[0].service_id, ms[0].body)
                == TaskService::EnvCall
        }),
{
}

// ---------------------------------------------------------------------------
// The environment call between a user program and the kernel
// ---------------------------------------------------------------------------

/// Whether `id` is a system-call number that the task manager serves itself
/// rather than forwards.
pub open spec fn served_by_task_manager(id: usize) -> bool {
    id == LINUX_GETPID || id == LINUX_SET_TID_ADDRESS || id == LINUX_WRITE || id == LINUX_EXIT
        || id == LINUX_EXIT_GROUP || id == 135 || id == 178 || id == LINUX_CLOCK_GETTIME || id
        == FS_WRITEV || id == LINUX_FORK || id == LINUX_EXEC || id == LINUX_WAITPID || id
        == LINUX_READ || id == LINUX_MAP || id == LINUX_UNMAP
}

/// A message that a user program's bus hands to the kernel by an environment
/// call comes out of the kernel's system-call decoding as the same message,
/// to be sent on, whenever its node number is not one the task manager
/// serves itself.
pub proof fn environment_call_carries_the_message(m: host_bus::Message, x: Seq<usize>)
    requires
        x.len() == 32,
        !served_by_task_manager(m.node_id),
        ({
            let r = user_bus::forward_spec(m.node_id, m.service_id, m.body);
            x[10] == r.x10 && x[11] == r.x11 && x[12] == r.x12 && x[13] == r.x13 && x[17] == r.x17
        }),
    ensures
        envcall_spec(x) matches EnvCall::Forward(f) && f.node_id == m.node_id && f.service_id
            == m.service_id && f.body == m.body,
{
    let f = host_bus::Message { node_id: x[17], service_id: x[13], body: [x[10], x[11], x[12]] };
    assert(f.body =~= m.body);
}

// ---------------------------------------------------------------------------
// Arithmetic
// ---------------------------------------------------------------------------

/// `mmap` accepts a request exactly when it asks for some of the read, write
/// and execute bits and nothing else, a frame is free, and the start is on a
/// page boundary.
pub proof fn mmap_accepts_exactly_valid_requests(start: usize, port: usize, frames_exhausted: bool)
    ensures
        mmap_valid(start, port, frames_exhausted) <==> (1 <= port <= 7 && !frames_exhausted && start
            % 4096 == 0),
{
}

/// A child is collected by `waitpid(pid)` exactly when it has exited and
/// `pid` is -1 or its own pid, whatever its exit code.
pub proof fn exited_matching_child_is_collectable(st: Seq<ChildStatus>, i: int, pid: isize)
    requires
        0 <= i < st.len(),
    ensures
        reapable(st, i, pid) <==> (st[i].zombie && (pid == -1 || pid as usize == st[i].pid)),
{
}

/// Every system call but `exit` and `clock_gettime` leaves its answer in
/// `a0`: the outcome of its work, or 0 for the calls that are accepted and
/// ignored.
pub proof fn calls_answer_in_a0(x: Seq<usize>)
    requires
        x.len() == 32,
        x[17] != LINUX_EXIT,
        x[17] != LINUX_CLOCK_GETTIME,
    ensures
        writes_return_spec(envcall_spec(x)),
        (x[17] == LINUX_SET_TID_ADDRESS || x[17] == LINUX_EXIT_GROUP || x[17] == 135 || x[17] == 178)
            ==> immediate_return_spec(envcall_spec(x)) == Some(0usize),
        !(x[17] == LINUX_SET_TID_ADDRESS || x[17] == LINUX_EXIT_GROUP || x[17] == 135 || x[17] == 178)
            ==> immediate_return_spec(envcall_spec(x)) is None,
{
}

/// The length that `mmap` reports covers the request and is made of whole
/// pages, less than a page more than asked.
pub proof fn mmap_length_is_whole_pages(len: usize)
    ensures
        mmap_length_spec(len) % 4096 == 0,
        len <= mmap_length_spec(len) < len + 4096,
{
    let q = (len + 4095) / 4096;
    assert(q * 4096 % 4096 == 0 && len <= q * 4096 < len + 4096) by (nonlinear_arith)
        requires
            q == (len + 4095) / 4096,
            len >= 0,
    ;
}

// ---------------------------------------------------------------------------
// Error numbers
// ---------------------------------------------------------------------------

/// Every error is found again from its number, so no two errors share one.
pub proof fn error_numbers_round_trip(e: SysError, f: SysError)
    ensures
        from_code_spec(code_spec(e)) == Some(e),
        code_spec(e) == code_spec(f) ==> e == f,
{
}

/// Each error's number is its Linux number, and a number names an error
/// exactly when it is one of these, the error whose number it is.
pub proof fn error_numbers_are_the_linux_numbers(n: isize)
    ensures
        code_spec(SysError::EUNDEF) == 0,
        code_spec(SysError::EPERM) == 1,
        code_spec(SysError::ENOENT) == 2,
        code_spec(SysError::ESRCH) == 3,
        code_spec(SysError::EINTR) == 4,
        code_spec(SysError::EIO) == 5,
        code_spec(SysError::ENXIO) == 6,
        code_spec(SysError::E2BIG) == 7,
        code_spec(SysError::ENOEXEC) == 8,
        code_spec(SysError::EBADF) == 9,
        code_spec(SysError::ECHILD) == 10,
        code_spec(SysError::EAGAIN) == 11,
        code_spec(SysError::ENOMEM) == 12,
        code_spec(SysError::EACCES) == 13,
        code_spec(SysError::EFAULT) == 14,
        code_spec(SysError::ENOTBLK) == 15,
        code_spec(SysError::EBUSY) == 16,
        code_spec(SysError::EEXIST) == 17,
        code_spec(SysError::EXDEV) == 18,
        code_spec(SysError::ENODEV) == 19,
        code_spec(SysError::ENOTDIR) == 20,
        code_spec(SysError::EISDIR) == 21,
        code_spec(SysError::EINVAL) == 22,
        code_spec(SysError::ENFILE) == 23,
        code_spec(SysError::EMFILE) == 24,
        code_spec(SysError::ENOTTY) == 25,
        code_spec(SysError::ETXTBSY) == 26,
        code_spec(SysError::EFBIG) == 27,
        code_spec(SysError::ENOSPC) == 28,
        code_spec(SysError::ESPIPE) == 29,
        code_spec(SysError::EROFS) == 30,
        code_spec(SysError::EMLINK) == 31,
        code_spec(SysError::EPIPE) == 32,
        code_spec(SysError::EDOM) == 33,
        code_spec(SysError::ERANGE) == 34,
        code_spec(SysError::EDEADLK) == 35,
        code_spec(SysError::ENAMETOOLONG) == 36,
        code_spec(SysError::ENOLCK) == 37,
        code_spec(SysError::ENOSYS) == 38,
        code_spec(SysError::ENOTEMPTY) == 39,
        code_spec(SysError::ELOOP) == 40,
        code_spec(SysError::EIDRM) == 43,
        code_spec(SysError::ENOTSOCK) == 80,
        code_spec(SysError::ENOPROTOOPT) == 92,
        code_spec(SysError::EPFNOSUPPORT) == 96,
        code_spec(SysError::EAFNOSUPPORT) == 97,
        code_spec(SysError::ENOBUFS) == 105,
        code_spec(SysError::EISCONN) == 106,
        code_spec(SysError::ENOTCONN) == 107,
        code_spec(SysError::ETIMEDOUT) == 110,
        code_spec(SysError::ECONNREFUSED) == 111,
        from_code_spec(n) matches Some(e) ==> code_spec(e) == n,
{
}

/// Two different errors that each have a description of their own are
/// described differently, and neither is described as "Unknown error"; the
/// three without one all read "Unknown error".
pub proof fn distinct_errors_have_distinct_descriptions(e: SysError, f: SysError)
    ensures
        has_description(e) && has_description(f) && e != f ==> message_spec(e) != message_spec(f),
        has_description(e) ==> message_spec(e) != "Unknown error"@,
        !has_description(e) ==> message_spec(e) == "Unknown error"@,
{
    lemma_description_keys(e);
    lemma_description_keys(f);
}

// ---------------------------------------------------------------------------
// IPv4 header checksum
// ---------------------------------------------------------------------------

proof fn lemma_fold_carries(x: int) -> (k: int)
    requires
        0 <= x < 0x1_0000_0000,
    ensures
        fold_carries(x) == x + 65535 * k,
        0 <= fold_carries(x) <= 65535,
        x > 0 ==> fold_carries(x) >= 1,
{
    let q = x / 65536;
    let r = x % 65536;
    assert(x == 65536 * q + r && 0 <= r < 65536 && 0 <= q < 65536) by (nonlinear_arith)
        requires
            0 <= x < 0x1_0000_0000,
            q == x / 65536,
            r == x % 65536,
    ;
    let s = q + r;
    let q2 = s / 65536;
    let r2 = s % 65536;
    assert(s == 65536 * q2 + r2 && 0 <= r2 < 65536 && 0 <= q2 <= 1) by (nonlinear_arith)
        requires
            0 <= s < 131072,
            q2 == s / 65536,
            r2 == s % 65536,
    ;
    assert(q2 == 1 ==> r2 <= 65534);
    -(q + q2)
}

proof fn lemma_word_sum_checksum_field(a: Seq<u8>, b: Seq<u8>, n: nat)
    requires
        a.len() == 20,
        b.len() == 20,
        n <= 10,
        forall|i: int| 0 <= i < 20 && i != 10 && i != 11 ==> a[i] == b[i],
    ensures
        n <= 5 ==> word_sum(b, n) == word_sum(a, n),
        n > 5 ==> word_sum(b, n) == word_sum(a, n) + (b[10] * 256 + b[11]) - (a[10] * 256 + a[11]),
    decreases n,
{
    if n > 0 {
        lemma_word_sum_checksum_field(a, b, (n - 1) as nat);
    }
}

/// The header of a datagram built by a raw socket passes the receiver's
/// check: the ten 16-bit words of the finished header, checksum included,
/// fold to 0xffff.
pub proof fn built_header_checksum_verifies(protocol: u8, src: [u8; 4], dst: [u8; 4], payload_len: nat)
    requires
        payload_len + 20 <= 65535,
    ensures
        fold_carries(word_sum(with_checksum(ipv4_header_spec(protocol, src, dst, payload_len)), 10))
            == 65535,
{
    let h = ipv4_header_spec(protocol, src, dst, payload_len);
    let h2 = with_checksum(h);
    let w = word_sum(h, 10);
    crate::socket::lemma_word_sum_bounds(h, 10);
    let k1 = lemma_fold_carries(w);
    let c = ipv4_checksum_spec(h);
    assert(0 <= c <= 65535);
    let hi = (c / 256) as u8;
    let lo = (c % 256) as u8;
    assert(hi * 256 + lo == c) by (nonlinear_arith)
        requires
            0 <= c <= 65535,
            hi == c / 256,
            lo == c % 256,
    ;
    assert(h2[10] == hi && h2[11] == lo);
    lemma_word_sum_checksum_field(h, h2, 10);
    let y = word_sum(h2, 10);
    assert(y == w + c);
    let k2 = lemma_fold_carries(y);
}

} // verus!
