//! The task manager: its service requests, the Linux system calls it
//! decodes from a user trap, and the bookkeeping of exit and wait.
//!
//! Scheduling, address spaces and the program loader are outside this crate;
//! here stand the decisions and the state changes that the task manager
//! makes on the values it reads.
use vstd::prelude::*;
use crate::host_bus::Message;
use crate::trap::{TrapContext, REG_A0};
use crate::config::{
    FS_WRITEV, LINUX_CLOCK_GETTIME, LINUX_EXEC, LINUX_EXIT, LINUX_EXIT_GROUP, LINUX_FORK,
    LINUX_GETPID, LINUX_MAP, LINUX_READ, LINUX_SET_TID_ADDRESS, LINUX_UNMAP, LINUX_WAITPID,
    LINUX_WRITE, PAGE_SIZE, TASK_ENVCALL, TASK_EXEC, TASK_EXIT, TASK_EXIT_RUNNEXT, TASK_FORK,
    TASK_GETPID, TASK_INIT, TASK_LOADAPP, TASK_RUNFIRST, TASK_SUSPEND_RUNNEXT, TASK_TOKEN,
    TASK_TRAP_CX, TASK_WAITPID, TIMER, TIMER_GET, MEMORY_MANAGER, MEMORY_READ, MEMORY_WRITE,
    MEMORY_WRITEV,
};

verus! {

// ---------------------------------------------------------------------------
// Service requests
// ---------------------------------------------------------------------------

/// A request to the task manager, decoded from a service number and a body.
#[derive(Clone, Copy, Debug, PartialEq, Eq, Structural)]
pub enum TaskService {
    /// End the current task with `exit_code` and run the next one; reply 1.
    ExitRunNext { exit_code: i32 },
    /// Put the current task back in the ready queue and run the next; reply 1.
    SuspendRunNext,
    /// Report and end the current task with `exit_code`; there is no reply.
    Exit { exit_code: i32 },
    /// Add the initial process; reply 1.
    Init,
    /// Start running tasks; reply 1.
    RunFirst,
    /// Reply the current user page-table token.
    Token,
    /// Look up the current trap context; reply 1.
    TrapCx,
    /// Serve the system call in the current trap context; reply 0.
    EnvCall,
    /// Reply the current process id.
    GetPid,
    /// Fork the current process; reply the child's pid.
    Fork,
    /// Replace the current program by the one named at user address `path`.
    Exec { path: usize },
    /// Wait for child `pid`; its exit code goes to user address `exit_code_ptr`.
    Waitpid { pid: isize, exit_code_ptr: usize },
    /// List the applications; reply 1.
    LoadApp,
    /// A service number the task manager does not know; reply -1.
    Unsupported,
}

/// The request that service number `service_id` with `body` names.
pub open spec fn task_service_spec(service_id: usize, body: [usize; 3]) -> TaskService {
    if service_id == TASK_EXIT_RUNNEXT {
        TaskService::ExitRunNext { exit_code: body[0] as i32 }
    } else if service_id == TASK_SUSPEND_RUNNEXT {
        TaskService::SuspendRunNext
    } else if service_id == TASK_EXIT {
        TaskService::Exit { exit_code: body[0] as i32 }
    } else if service_id == TASK_INIT {
        TaskService::Init
    } else if service_id == TASK_RUNFIRST {
        TaskService::RunFirst
    } else if service_id == TASK_TOKEN {
        TaskService::Token
    } else if service_id == TASK_TRAP_CX {
        TaskService::TrapCx
    } else if service_id == TASK_ENVCALL {
        TaskService::EnvCall
    } else if service_id == TASK_GETPID {
        TaskService::GetPid
    } else if service_id == TASK_FORK {
        TaskService::Fork
    } else if service_id == TASK_EXEC {
        TaskService::Exec { path: body[0] }
    } else if service_id == TASK_WAITPID {
        TaskService::Waitpid { pid: body[0] as isize, exit_code_ptr: body[1] }
    } else if service_id == TASK_LOADAPP {
        TaskService::LoadApp
    } else {
        TaskService::Unsupported
    }
}

/// The reply owed to a request independently of the work it does.
pub open spec fn fixed_reply_spec(s: TaskService) -> Option<isize> {
    match s {
        TaskService::ExitRunNext { .. } | TaskService::SuspendRunNext | TaskService::Init
        | TaskService::RunFirst | TaskService::TrapCx | TaskService::LoadApp => Some(1isize),
        TaskService::EnvCall => Some(0isize),
        TaskService::Unsupported => Some(-1isize),
        _ => None,
    }
}

impl TaskService {
    /// The reply to the request, given the `outcome` of its work: the fixed
    /// reply where there is one, else the outcome.
    pub fn reply(&self, outcome: isize) -> (r: isize)
        ensures
            r == (match fixed_reply_spec(*self) {
                Some(v) => v,
                None => outcome,
            }),
    {
        match self.fixed_reply() {
            Some(v) => v,
            None => outcome,
        }
    }

    /// The reply owed independently of the work done: `None` where the reply
    /// is the outcome of the work (token, pid, fork, exec, wait), and for
    /// `Exit`, which does not return.
    pub fn fixed_reply(&self) -> (r: Option<isize>)
        ensures
            r == fixed_reply_spec(*self),
    {
        match self {
            TaskService::ExitRunNext { .. } | TaskService::SuspendRunNext | TaskService::Init
            | TaskService::RunFirst | TaskService::TrapCx | TaskService::LoadApp => Some(1),
            TaskService::EnvCall => Some(0),
            TaskService::Unsupported => Some(-1),
            _ => None,
        }
    }
}

/// The task-manager node.
pub struct Task;

impl Task {
    /// Decodes a request to the task manager.
    pub fn decode(&self, service_id: usize, body: [usize; 3]) -> (r: TaskService)
        ensures
            r == task_service_spec(service_id, body),
    {
        if service_id == TASK_EXIT_RUNNEXT {
            TaskService::ExitRunNext { exit_code: body[0] as i32 }
        } else if service_id == TASK_SUSPEND_RUNNEXT {
            TaskService::SuspendRunNext
        } else if service_id == TASK_EXIT {
            TaskService::Exit { exit_code: body[0] as i32 }
        } else if service_id == TASK_INIT {
            TaskService::Init
        } else if service_id == TASK_RUNFIRST {
            TaskService::RunFirst
        } else if service_id == TASK_TOKEN {
            TaskService::Token
        } else if service_id == TASK_TRAP_CX {
            TaskService::TrapCx
        } else if service_id == TASK_ENVCALL {
            TaskService::EnvCall
        } else if service_id == TASK_GETPID {
            TaskService::GetPid
        } else if service_id == TASK_FORK {
            TaskService::Fork
        } else if service_id == TASK_EXEC {
            TaskService::Exec { path: body[0] }
        } else if service_id == TASK_WAITPID {
            TaskService::Waitpid { pid: body[0] as isize, exit_code_ptr: body[1] }
        } else if service_id == TASK_LOADAPP {
            TaskService::LoadApp
        } else {
            TaskService::Unsupported
        }
    }
}

// ---------------------------------------------------------------------------
// System calls from a user trap
// ---------------------------------------------------------------------------

/// Register `a7` (`x17`) holds the system-call number.
pub const REG_A7: usize = 17;
/// Register `a3` (`x13`) holds the service number of a forwarded call.
pub const REG_A3: usize = 13;

/// A Linux system call, decoded from the registers of a user trap.
#[derive(Clone, Copy, Debug, PartialEq, Eq)]
pub enum EnvCall {
    /// Return the current pid.
    GetPid,
    /// Accepted and ignored: returns 0.
    SetTidAddress,
    /// Write `len` bytes at user address `buf` to the console (memory manager).
    Write { buf: usize, len: usize },
    /// Report and end the current task; does not return.
    Exit { exit_code: i32 },
    /// Accepted and ignored: returns 0.
    ExitGroup,
    /// Store the time at the user `TimeSpec` at `ts`; leaves `a0` as it was.
    ClockGettime { ts: usize },
    /// Write `count` buffers of the `IoVec` array at `iov` (memory manager).
    Writev { iov: usize, count: usize },
    /// Fork the current process.
    Fork,
    /// Replace the current program by the one named at user address `path`.
    Exec { path: usize },
    /// Wait for child `pid`; its exit code goes to user address `exit_code_ptr`.
    Waitpid { pid: isize, exit_code_ptr: usize },
    /// Read into `len` bytes at user address `buf` (memory manager).
    Read { buf: usize, len: usize },
    /// Map `len` bytes at `start` with the permission bits `port`.
    Mmap { start: usize, len: usize, port: usize },
    /// Unmap the pages covering `len` bytes at `start`.
    Munmap { start: usize, len: usize },
    /// Any other number: a bus message to node `a7`, service `a3`, body `a0`-`a2`.
    Forward(Message),
}

/// The system call that the registers `x` of a user trap name.
pub open spec fn envcall_spec(x: Seq<usize>) -> EnvCall {
    let id = x[17];
    if id == LINUX_GETPID {
        EnvCall::GetPid
    } else if id == LINUX_SET_TID_ADDRESS {
        EnvCall::SetTidAddress
    } else if id == LINUX_WRITE {
        EnvCall::Write { buf: x[11], len: x[12] }
    } else if id == LINUX_EXIT {
        EnvCall::Exit { exit_code: x[10] as i32 }
    } else if id == LINUX_EXIT_GROUP || id == 135 || id == 178 {
        EnvCall::ExitGroup
    } else if id == LINUX_CLOCK_GETTIME {
        EnvCall::ClockGettime { ts: x[11] }
    } else if id == FS_WRITEV {
        EnvCall::Writev { iov: x[11], count: x[12] }
    } else if id == LINUX_FORK {
        EnvCall::Fork
    } else if id == LINUX_EXEC {
        EnvCall::Exec { path: x[10] }
    } else if id == LINUX_WAITPID {
        EnvCall::Waitpid { pid: x[10] as isize, exit_code_ptr: x[12] }
    } else if id == LINUX_READ {
        EnvCall::Read { buf: x[11], len: x[12] }
    } else if id == LINUX_MAP {
        EnvCall::Mmap { start: x[10], len: x[11], port: x[12] }
    } else if id == LINUX_UNMAP {
        EnvCall::Munmap { start: x[10], len: x[11] }
    } else {
        EnvCall::Forward(Message { node_id: x[17], service_id: x[13], body: [x[10], x[11], x[12]] })
    }
}

/// Whether the outcome of system call `c` is stored in `a0`.
pub open spec fn writes_return_spec(c: EnvCall) -> bool {
    match c {
        EnvCall::Exit { .. } | EnvCall::ClockGettime { .. } => false,
        _ => true,
    }
}

/// The value that system call `c` leaves in `a0` regardless of any work.
pub open spec fn immediate_return_spec(c: EnvCall) -> Option<usize> {
    match c {
        EnvCall::SetTidAddress | EnvCall::ExitGroup => Some(0usize),
        _ => None,
    }
}

/// The message that system call `c` sends to the memory manager for the user
/// address space whose page-table token is `token`, where it sends one:
/// write, vectored write and read pass the token and their two arguments,
/// and the manager's reply is the call's outcome.
pub open spec fn memory_request_spec(c: EnvCall, token: usize) -> Option<Message> {
    match c {
        EnvCall::Write { buf, len } => Some(
            Message { node_id: MEMORY_MANAGER, service_id: MEMORY_WRITE, body: [token, buf, len] },
        ),
        EnvCall::Writev { iov, count } => Some(
            Message { node_id: MEMORY_MANAGER, service_id: MEMORY_WRITEV, body: [token, iov, count] },
        ),
        EnvCall::Read { buf, len } => Some(
            Message { node_id: MEMORY_MANAGER, service_id: MEMORY_READ, body: [token, buf, len] },
        ),
        _ => None,
    }
}

impl EnvCall {
    /// The message the call sends to the memory manager for the address
    /// space `token`, where it sends one; the reply is the call's outcome.
    pub fn memory_request(&self, token: usize) -> (r: Option<Message>)
        ensures
            r == memory_request_spec(*self, token),
    {
        match self {
            EnvCall::Write { buf, len } => Some(
                Message { node_id: MEMORY_MANAGER, service_id: MEMORY_WRITE, body: [token, *buf, *len] },
            ),
            EnvCall::Writev { iov, count } => Some(
                Message { node_id: MEMORY_MANAGER, service_id: MEMORY_WRITEV, body: [token, *iov, *count] },
            ),
            EnvCall::Read { buf, len } => Some(
                Message { node_id: MEMORY_MANAGER, service_id: MEMORY_READ, body: [token, *buf, *len] },
            ),
            _ => None,
        }
    }

    /// Whether the outcome of the call is stored in `a0`.
    pub fn writes_return(&self) -> (r: bool)
        ensures
            r == writes_return_spec(*self),
    {
        match self {
            EnvCall::Exit { .. } | EnvCall::ClockGettime { .. } => false,
            _ => true,
        }
    }

    /// The value left in `a0` regardless of any work, where there is one.
    pub fn immediate_return(&self) -> (r: Option<usize>)
        ensures
            r == immediate_return_spec(*self),
    {
        match self {
            EnvCall::SetTidAddress | EnvCall::ExitGroup => Some(0),
            _ => None,
        }
    }
}

/// Starts serving the system call of a user trap: steps the return address
/// past the `ecall` instruction and decodes the call from the registers.
pub fn begin_envcall(cx: &mut TrapContext) -> (c: EnvCall)
    requires
        old(cx).sepc + 4 <= usize::MAX,
    ensures
        c == envcall_spec(old(cx).x@),
        final(cx).sepc == old(cx).sepc + 4,
        final(cx).x == old(cx).x,
        final(cx).sstatus == old(cx).sstatus,
        final(cx).kernel_satp == old(cx).kernel_satp,
        final(cx).kernel_sp == old(cx).kernel_sp,
        final(cx).trap_handler == old(cx).trap_handler,
{
    cx.sepc = cx.sepc + 4;
    let x = &cx.x;
    let id = x[17];
    if id == LINUX_GETPID {
        EnvCall::GetPid
    } else if id == LINUX_SET_TID_ADDRESS {
        EnvCall::SetTidAddress
    } else if id == LINUX_WRITE {
        EnvCall::Write { buf: x[11], len: x[12] }
    } else if id == LINUX_EXIT {
        EnvCall::Exit { exit_code: x[10] as i32 }
    } else if id == LINUX_EXIT_GROUP || id == 135 || id == 178 {
        EnvCall::ExitGroup
    } else if id == LINUX_CLOCK_GETTIME {
        EnvCall::ClockGettime { ts: x[11] }
    } else if id == FS_WRITEV {
        EnvCall::Writev { iov: x[11], count: x[12] }
    } else if id == LINUX_FORK {
        EnvCall::Fork
    } else if id == LINUX_EXEC {
        EnvCall::Exec { path: x[10] }
    } else if id == LINUX_WAITPID {
        EnvCall::Waitpid { pid: x[10] as isize, exit_code_ptr: x[12] }
    } else if id == LINUX_READ {
        EnvCall::Read { buf: x[11], len: x[12] }
    } else if id == LINUX_MAP {
        EnvCall::Mmap { start: x[10], len: x[11], port: x[12] }
    } else if id == LINUX_UNMAP {
        EnvCall::Munmap { start: x[10], len: x[11] }
    } else {
        EnvCall::Forward(Message { node_id: x[17], service_id: x[13], body: [x[10], x[11], x[12]] })
    }
}

/// Finishes a system call whose work produced `outcome`: stores in `a0` the
/// call's immediate value, or else `outcome`, unless the call leaves `a0`.
pub fn finish_envcall(cx: &mut TrapContext, c: &EnvCall, outcome: usize)
    ensures
        writes_return_spec(*c) ==> final(cx).x@ == old(cx).x@.update(
            REG_A0 as int,
            match immediate_return_spec(*c) {
                Some(v) => v,
                None => outcome,
            },
        ),
        !writes_return_spec(*c) ==> final(cx).x == old(cx).x,
        !(*c is Exit) && !(*c is ClockGettime) ==> final(cx).x@[REG_A0 as int] == match immediate_return_spec(
            *c,
        ) {
            Some(v) => v,
            None => outcome,
        },
        final(cx).sepc == old(cx).sepc,
        final(cx).sstatus == old(cx).sstatus,
        final(cx).kernel_satp == old(cx).kernel_satp,
        final(cx).kernel_sp == old(cx).kernel_sp,
        final(cx).trap_handler == old(cx).trap_handler,
{
    if c.writes_return() {
        let v = match c.immediate_return() {
            Some(v) => v,
            None => outcome,
        };
        cx.set_return(v);
    }
}

/// The message asking the timer for the time in milliseconds, sent for
/// `clock_gettime`.
pub fn time_request() -> (m: Message)
    ensures
        m.node_id == TIMER,
        m.service_id == TIMER_GET,
        m.body == [0usize, 0, 0],
{
    Message { node_id: TIMER, service_id: TIMER_GET, body: [0, 0, 0] }
}

// ---------------------------------------------------------------------------
// Task state: suspension, exit and wait
// ---------------------------------------------------------------------------

/// The scheduling state of a task.
#[derive(Clone, Copy, Debug, PartialEq, Eq, Structural)]
pub enum TaskStatus {
    Ready,
    Running,
    /// Exited, waiting for its parent to collect the exit code.
    Zombie,
}

/// The mutable part of a task control block: its state, its exit code, the
/// pid of its parent where it has one, and its children, each held through a
/// handle of type `C`.
pub struct TaskInner<C> {
    pub task_status: TaskStatus,
    pub exit_code: i32,
    pub parent: Option<usize>,
    pub children: Vec<C>,
}

impl<C> TaskInner<C> {
    /// Whether the task has exited.
    pub fn is_zombie(&self) -> (r: bool)
        ensures
            r == (self.task_status == TaskStatus::Zombie),
    {
        self.task_status == TaskStatus::Zombie
    }

    /// The current task gives up the processor: it becomes ready again.
    pub fn suspend(&mut self)
        ensures
            final(self).task_status == TaskStatus::Ready,
            final(self).exit_code == old(self).exit_code,
            final(self).parent == old(self).parent,
            final(self).children@ == old(self).children@,
    {
        self.task_status = TaskStatus::Ready;
    }

    /// The current task exits with `exit_code`: it becomes a zombie holding
    /// the code, and its children, in order, are handed to `initproc`, whose
    /// pid is `initproc_pid`.  `child_parents` holds the parent of each child,
    /// in the order of the children; each becomes `initproc_pid`.
    pub fn exit(
        &mut self,
        exit_code: i32,
        initproc: &mut TaskInner<C>,
        initproc_pid: usize,
        child_parents: &mut Vec<Option<usize>>,
    )
        requires
            old(child_parents)@.len() == old(self).children@.len(),
        ensures
            final(self).task_status == TaskStatus::Zombie,
            final(self).exit_code == exit_code,
            final(self).parent == old(self).parent,
            final(self).children@ == Seq::<C>::empty(),
            final(initproc).children@ == old(initproc).children@ + old(self).children@,
            final(initproc).task_status == old(initproc).task_status,
            final(initproc).exit_code == old(initproc).exit_code,
            final(initproc).parent == old(initproc).parent,
            final(child_parents)@ == Seq::new(old(self).children@.len(), |i: int| Some(initproc_pid)),
    {
        let n = child_parents.len();
        let mut i: usize = 0;
        while i < n
            invariant
                n == child_parents@.len(),
                i <= n,
                forall|j: int| 0 <= j < i ==> child_parents@[j] == Some(initproc_pid),
            decreases n - i,
        {
            child_parents.set(i, Some(initproc_pid));
            i = i + 1;
        }
        assert(child_parents@ =~= Seq::new(old(self).children@.len(), |i: int| Some(initproc_pid)));
        self.task_status = TaskStatus::Zombie;
        self.exit_code = exit_code;
        initproc.children.append(&mut self.children);
    }
}

/// What `waitpid` reads of a child: its pid, whether it has exited, and its
/// exit code.
#[derive(Clone, Copy, Debug, PartialEq, Eq, Structural)]
pub struct ChildStatus {
    pub pid: usize,
    pub zombie: bool,
    pub exit_code: i32,
}

/// Whether the child with pid `child_pid` is one that `waitpid(pid)` waits
/// for: any child for -1, else the child with that pid.
pub open spec fn pid_matches(pid: isize, child_pid: usize) -> bool {
    pid == -1 || pid as usize == child_pid
}

/// Whether child `i` of `st` can be collected by `waitpid(pid)`.
pub open spec fn reapable(st: Seq<ChildStatus>, i: int, pid: isize) -> bool {
    st[i].zombie && pid_matches(pid, st[i].pid)
}

/// The outcome of `waitpid`.
pub enum WaitOutcome<C> {
    /// No child is waited for: reply -1.
    NoSuchChild,
    /// Children are waited for but none has exited: reply -2.
    StillRunning,
    /// Child `index` has been collected and removed from the children.
    Reaped { index: usize, child: C, pid: usize, exit_code: i32 },
}

impl<C> WaitOutcome<C> {
    /// The reply of `waitpid`: -1, -2, or the collected child's pid.
    pub fn reply(&self) -> (r: isize)
        ensures
            self is NoSuchChild ==> r == -1,
            self is StillRunning ==> r == -2,
            self matches WaitOutcome::Reaped { pid, .. } ==> r == pid as isize,
    {
        match self {
            WaitOutcome::NoSuchChild => -1,
            WaitOutcome::StillRunning => -2,
            WaitOutcome::Reaped { pid, .. } => *pid as isize,
        }
    }
}

/// Waits for child `pid` (-1: any child) of the task whose state is `inner`;
/// `statuses[i]` is what child `i` shows.  The first child, in order, that
/// has exited and matches is collected: removed from the children, its pid
/// and exit code returned.
pub fn sys_waitpid<C>(inner: &mut TaskInner<C>, statuses: &Vec<ChildStatus>, pid: isize) -> (r:
    WaitOutcome<C>)
    requires
        statuses@.len() == old(inner).children@.len(),
    ensures
        final(inner).task_status == old(inner).task_status,
        final(inner).exit_code == old(inner).exit_code,
        (forall|i: int| 0 <= i < statuses@.len() ==> !pid_matches(pid, #[trigger] statuses@[i].pid))
            <==> r is NoSuchChild,
        r is StillRunning <==> (exists|i: int|
            0 <= i < statuses@.len() && pid_matches(pid, #[trigger] statuses@[i].pid)) && (forall|i: int|
            0 <= i < statuses@.len() ==> !reapable(statuses@, i, pid)),
        (exists|i: int|
            0 <= i < statuses@.len() && #[trigger] statuses@[i].zombie && (pid == -1 || pid as usize
                == statuses@[i].pid)) ==> r is Reaped,
        !(r is Reaped) ==> final(inner).children@ == old(inner).children@,
        r matches WaitOutcome::Reaped { index, child, pid: cpid, exit_code } ==> {
            &&& index < statuses@.len()
            &&& reapable(statuses@, index as int, pid)
            &&& forall|j: int| 0 <= j < index ==> !reapable(statuses@, j, pid)
            &&& child == old(inner).children@[index as int]
            &&& cpid == statuses@[index as int].pid
            &&& exit_code == statuses@[index as int].exit_code
            &&& final(inner).children@ == old(inner).children@.remove(index as int)
        },
{
    proof {
        assert forall|i: int|
            0 <= i < statuses@.len() && #[trigger] statuses@[i].zombie && (pid == -1 || pid as usize
                == statuses@[i].pid) implies reapable(statuses@, i, pid) && pid_matches(
            pid,
            statuses@[i].pid,
        ) by {}
    }
    let mut any = false;
    let mut i: usize = 0;
    while i < statuses.len()
        invariant
            i <= statuses@.len(),
            any <==> exists|j: int| 0 <= j < i && pid_matches(pid, #[trigger] statuses@[j].pid),
        decreases statuses@.len() - i,
    {
        if pid == -1 || #[verifier::truncate] (pid as usize) == statuses[i].pid {
            assert(pid_matches(pid, statuses@[i as int].pid));
            any = true;
        }
        assert(forall|j: int|
            0 <= j < i + 1 && pid_matches(pid, #[trigger] statuses@[j].pid) ==> (0 <= j < i
                || j == i));
        i = i + 1;
    }
    if !any {
        return WaitOutcome::NoSuchChild;
    }
    let mut k: usize = 0;
    while k < statuses.len()
        invariant
            k <= statuses@.len(),
            statuses@.len() == inner.children@.len(),
            inner.children@ == old(inner).children@,
            inner.task_status == old(inner).task_status,
            inner.exit_code == old(inner).exit_code,
            forall|j: int| 0 <= j < k ==> !reapable(statuses@, j, pid),
        decreases statuses@.len() - k,
    {
        let st = statuses[k];
        if st.zombie && (pid == -1 || #[verifier::truncate] (pid as usize) == st.pid) {
            assert(reapable(statuses@, k as int, pid));
            let child = inner.children.remove(k);
            return WaitOutcome::Reaped { index: k, child, pid: st.pid, exit_code: st.exit_code };
        }
        k = k + 1;
    }
    WaitOutcome::StillRunning
}

/// The reply of `exec`: 0 when the named application was found and loaded,
/// -1 otherwise.
pub fn sys_exec(found: bool) -> (r: isize)
    ensures
        found ==> r == 0,
        !found ==> r == -1,
{
    if found {
        0
    } else {
        -1
    }
}

/// Prepares the context of a forked child: the child sees `fork` return 0.
/// The parent's reply is the child's pid.
pub fn sys_fork(child_cx: &mut TrapContext, new_pid: usize) -> (r: isize)
    ensures
        final(child_cx).x@ == old(child_cx).x@.update(REG_A0 as int, 0usize),
        final(child_cx).sepc == old(child_cx).sepc,
        final(child_cx).sstatus == old(child_cx).sstatus,
        final(child_cx).kernel_satp == old(child_cx).kernel_satp,
        final(child_cx).kernel_sp == old(child_cx).kernel_sp,
        final(child_cx).trap_handler == old(child_cx).trap_handler,
        r == new_pid as isize,
{
    child_cx.set_return(0);
    new_pid as isize
}

// ---------------------------------------------------------------------------
// Memory mapping
// ---------------------------------------------------------------------------

/// Access permissions of a mapped area.
#[derive(Clone, Copy, Debug, PartialEq, Eq, Structural)]
pub struct MapPermission {
    pub r: bool,
    pub w: bool,
    pub x: bool,
    /// Accessible from user mode.
    pub u: bool,
}

/// An area to map into the current address space, in framed pages.
#[derive(Clone, Copy, Debug, PartialEq, Eq, Structural)]
pub struct MmapArea {
    pub start: usize,
    pub end: usize,
    pub perm: MapPermission,
}

/// Whether `mmap(start, _, port)` is accepted: `port` asks for some of the
/// read (1), write (2) and execute (4) permissions and for nothing else, a
/// frame is free, and `start` is page aligned.
pub open spec fn mmap_valid(start: usize, port: usize, frames_exhausted: bool) -> bool {
    &&& 1 <= port <= 7
    &&& !frames_exhausted
    &&& start % PAGE_SIZE == 0
}

/// The permissions that `port` asks for; the area is always user accessible.
pub open spec fn mmap_permission_spec(port: usize) -> MapPermission {
    MapPermission { r: port % 2 == 1, w: (port / 2) % 2 == 1, x: (port / 4) % 2 == 1, u: true }
}

/// The length that `mmap` reports for a request of `len` bytes: `len`
/// rounded up to whole pages.
pub open spec fn mmap_length_spec(len: usize) -> int {
    ((len + 4095) / 4096) * 4096
}

/// The area that `mmap(start, len, port)` maps, and the length it replies;
/// `None` when the request is rejected (the kernel stops).  The area runs
/// from `start` to `start + len / 8`; whether it overlaps an existing one is
/// checked by the address space.
pub fn sys_mmap(start: usize, len: usize, port: usize, frames_exhausted: bool) -> (r: Option<
    (MmapArea, isize),
>)
    requires
        mmap_valid(start, port, frames_exhausted) ==> start + len / 8 <= usize::MAX && len
            <= isize::MAX - 4095,
    ensures
        r is Some <==> (1 <= port <= 7 && !frames_exhausted && start % 4096 == 0),
        !mmap_valid(start, port, frames_exhausted) ==> r is None,
        mmap_valid(start, port, frames_exhausted) ==> r == Some(
            (
                MmapArea {
                    start,
                    end: (start + len / 8) as usize,
                    perm: mmap_permission_spec(port),
                },
                mmap_length_spec(len) as isize,
            ),
        ),
{
    assert((port & 7 == 0 || port & !7usize != 0) <==> !(1 <= port <= 7)) by (bit_vector);
    if port & 7 == 0 || frames_exhausted || port & !7usize != 0 || start % PAGE_SIZE != 0 {
        return None;
    }
    assert(port & 1 == 1 <==> port % 2 == 1) by (bit_vector);
    assert(port & 2 == 2 <==> (port / 2) % 2 == 1) by (bit_vector);
    assert(port & 4 == 4 <==> (port / 4) % 2 == 1) by (bit_vector);
    let perm = MapPermission { r: port & 1 == 1, w: port & 2 == 2, x: port & 4 == 4, u: true };
    let area = MmapArea { start, end: start + len / 8, perm };
    let l = len as isize;
    let reply = (l - 1 + 4096) / 4096 * 4096;
    assert(reply == mmap_length_spec(len)) by (nonlinear_arith)
        requires
            l == len,
            0 <= len <= isize::MAX - 4095,
            reply == ((l - 1 + 4096) / 4096) * 4096,
    ;
    Some((area, reply))
}

/// Admits the area of an accepted `mmap`, given whether it `overlaps` an
/// area already mapped in the address space: an overlapping area is refused
/// (the kernel stops), any other is mapped with the reply unchanged.
pub fn mmap_admit(area: MmapArea, reply: isize, overlaps: bool) -> (r: Option<(MmapArea, isize)>)
    ensures
        overlaps ==> r is None,
        !overlaps ==> r == Some((area, reply)),
{
    if overlaps {
        None
    } else {
        Some((area, reply))
    }
}

/// The number of pages that `munmap` removes for `len` bytes: `len` rounded
/// up to whole pages.
pub fn sys_unmap(len: usize) -> (pages: usize)
    requires
        1 <= len,
        len + 4095 <= usize::MAX,
    ensures
        pages == (len + 4095) / 4096,
        (pages - 1) * 4096 < len <= pages * 4096,
{
    let pages = (len - 1 + 4096) / 4096;
    assert((pages - 1) * 4096 < len <= pages * 4096) by (nonlinear_arith)
        requires
            pages == (len - 1 + 4096) / 4096,
            len >= 1,
    ;
    pages
}

} // verus!
