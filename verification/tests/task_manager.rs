use hierarbus::task::{
    self, begin_envcall, finish_envcall, mmap_admit, sys_mmap, sys_unmap, sys_waitpid, time_request, ChildStatus, EnvCall,
    MapPermission, MmapArea, Task, TaskInner, TaskService, TaskStatus, WaitOutcome,
};
use hierarbus::trap::TrapContext;
use hierarbus::host_bus;
use hierarbus::config::{
    TASK_ENVCALL, TASK_EXEC, TASK_EXIT, TASK_EXIT_RUNNEXT, TASK_FORK, TASK_GETPID, TASK_INIT, TASK_LOADAPP,
    TASK_RUNFIRST, TASK_SUSPEND_RUNNEXT, TASK_TOKEN, TASK_TRAP_CX, TASK_WAITPID, TIMER, TIMER_GET,
    MEMORY_MANAGER, MEMORY_READ, MEMORY_WRITE, MEMORY_WRITEV,
};

#[test]
fn task_manager_decodes_its_services() {
    let t = Task;
    assert_eq!(t.decode(TASK_EXIT_RUNNEXT, [(-2i32) as usize, 0, 0]), TaskService::ExitRunNext { exit_code: -2 });
    assert_eq!(t.decode(TASK_SUSPEND_RUNNEXT, [0; 3]), TaskService::SuspendRunNext);
    assert_eq!(t.decode(TASK_EXIT, [5, 0, 0]), TaskService::Exit { exit_code: 5 });
    assert_eq!(t.decode(TASK_INIT, [0; 3]), TaskService::Init);
    assert_eq!(t.decode(TASK_RUNFIRST, [0; 3]), TaskService::RunFirst);
    assert_eq!(t.decode(TASK_TOKEN, [0; 3]), TaskService::Token);
    assert_eq!(t.decode(TASK_TRAP_CX, [0; 3]), TaskService::TrapCx);
    assert_eq!(t.decode(TASK_ENVCALL, [0; 3]), TaskService::EnvCall);
    assert_eq!(t.decode(TASK_GETPID, [0; 3]), TaskService::GetPid);
    assert_eq!(t.decode(TASK_FORK, [0; 3]), TaskService::Fork);
    assert_eq!(t.decode(TASK_EXEC, [0x10, 0, 0]), TaskService::Exec { path: 0x10 });
    assert_eq!(t.decode(TASK_WAITPID, [3, 0x20, 0]), TaskService::Waitpid { pid: 3, exit_code_ptr: 0x20 });
    assert_eq!(t.decode(TASK_LOADAPP, [0; 3]), TaskService::LoadApp);
    assert_eq!(t.decode(1000, [0; 3]), TaskService::Unsupported);
}

#[test]
fn task_manager_fixed_replies() {
    assert_eq!(TaskService::SuspendRunNext.fixed_reply(), Some(1));
    assert_eq!(TaskService::ExitRunNext { exit_code: 0 }.fixed_reply(), Some(1));
    assert_eq!(TaskService::Init.fixed_reply(), Some(1));
    assert_eq!(TaskService::RunFirst.fixed_reply(), Some(1));
    assert_eq!(TaskService::TrapCx.fixed_reply(), Some(1));
    assert_eq!(TaskService::LoadApp.fixed_reply(), Some(1));
    assert_eq!(TaskService::EnvCall.fixed_reply(), Some(0));
    assert_eq!(TaskService::Unsupported.fixed_reply(), Some(-1));
    assert_eq!(TaskService::Token.fixed_reply(), None);
    assert_eq!(TaskService::GetPid.fixed_reply(), None);
    assert_eq!(TaskService::Exit { exit_code: 0 }.fixed_reply(), None);
}

fn context_with(a7: usize, a0: usize, a1: usize, a2: usize, a3: usize) -> TrapContext {
    let mut cx = TrapContext::app_init_context(0x1000, 0x8000, 0, 0, 0, 0);
    cx.x[17] = a7;
    cx.x[10] = a0;
    cx.x[11] = a1;
    cx.x[12] = a2;
    cx.x[13] = a3;
    cx
}

#[test]
fn envcall_steps_past_ecall_and_decodes() {
    let mut cx = context_with(172, 0, 0, 0, 0);
    assert_eq!(begin_envcall(&mut cx), EnvCall::GetPid);
    assert_eq!(cx.sepc, 0x1004);
    let cases: Vec<(usize, EnvCall)> = vec![
        (96, EnvCall::SetTidAddress),
        (64, EnvCall::Write { buf: 11, len: 12 }),
        (93, EnvCall::Exit { exit_code: 10 }),
        (94, EnvCall::ExitGroup),
        (135, EnvCall::ExitGroup),
        (178, EnvCall::ExitGroup),
        (113, EnvCall::ClockGettime { ts: 11 }),
        (66, EnvCall::Writev { iov: 11, count: 12 }),
        (220, EnvCall::Fork),
        (221, EnvCall::Exec { path: 10 }),
        (260, EnvCall::Waitpid { pid: 10, exit_code_ptr: 12 }),
        (63, EnvCall::Read { buf: 11, len: 12 }),
        (222, EnvCall::Mmap { start: 10, len: 11, port: 12 }),
        (215, EnvCall::Munmap { start: 10, len: 11 }),
        (3, EnvCall::Forward(host_bus::Message::new(3, 13, [10, 11, 12]))),
    ];
    for (a7, expected) in cases {
        let mut cx = context_with(a7, 10, 11, 12, 13);
        assert_eq!(begin_envcall(&mut cx), expected, "a7 = {}", a7);
    }
}

#[test]
fn envcall_finish_writes_a0() {
    let mut cx = context_with(172, 99, 0, 0, 0);
    let c = begin_envcall(&mut cx);
    finish_envcall(&mut cx, &c, 17);
    assert_eq!(cx.x[10], 17);
    let mut cx = context_with(96, 99, 0, 0, 0);
    let c = begin_envcall(&mut cx);
    finish_envcall(&mut cx, &c, 17);
    assert_eq!(cx.x[10], 0);
    let mut cx = context_with(113, 99, 0, 0, 0);
    let c = begin_envcall(&mut cx);
    finish_envcall(&mut cx, &c, 17);
    assert_eq!(cx.x[10], 99);
    assert!(!EnvCall::Exit { exit_code: 0 }.writes_return());
    assert_eq!(EnvCall::ExitGroup.immediate_return(), Some(0));
    assert_eq!(EnvCall::Fork.immediate_return(), None);
}

#[test]
fn clock_request_goes_to_timer() {
    assert_eq!(time_request(), host_bus::Message::new(TIMER, TIMER_GET, [0, 0, 0]));
}

#[test]
fn suspend_makes_ready() {
    let mut t: TaskInner<u32> = TaskInner { task_status: TaskStatus::Running, exit_code: 0, parent: Some(1), children: vec![1, 2] };
    t.suspend();
    assert_eq!(t.task_status, TaskStatus::Ready);
    assert_eq!(t.children, vec![1, 2]);
    assert!(!t.is_zombie());
}

#[test]
fn exit_hands_children_to_initproc() {
    let mut t: TaskInner<u32> =
        TaskInner { task_status: TaskStatus::Running, exit_code: 0, parent: Some(4), children: vec![5, 6] };
    let mut init: TaskInner<u32> = TaskInner { task_status: TaskStatus::Ready, exit_code: 0, parent: None, children: vec![2] };
    let mut parents = vec![Some(3), Some(3)];
    t.exit(-9, &mut init, 0, &mut parents);
    assert!(t.is_zombie());
    assert_eq!(t.exit_code, -9);
    assert!(t.children.is_empty());
    assert_eq!(t.parent, Some(4));
    assert_eq!(init.children, vec![2, 5, 6]);
    assert_eq!(init.task_status, TaskStatus::Ready);
    assert_eq!(init.parent, None);
    assert_eq!(parents, vec![Some(0), Some(0)]);
}

fn parent_with_children() -> (TaskInner<&'static str>, Vec<ChildStatus>) {
    let t = TaskInner { task_status: TaskStatus::Running, exit_code: 0, parent: Some(0), children: vec!["a", "b", "c"] };
    let st = vec![
        ChildStatus { pid: 3, zombie: false, exit_code: 0 },
        ChildStatus { pid: 4, zombie: true, exit_code: 7 },
        ChildStatus { pid: 5, zombie: true, exit_code: 8 },
    ];
    (t, st)
}

#[test]
fn waitpid_any_reaps_first_zombie() {
    let (mut t, st) = parent_with_children();
    let r = sys_waitpid(&mut t, &st, -1);
    assert_eq!(r.reply(), 4);
    match r {
        WaitOutcome::Reaped { index, child, pid, exit_code } => {
            assert_eq!((index, child, pid, exit_code), (1, "b", 4, 7));
        }
        _ => panic!("expected a reaped child"),
    }
    assert_eq!(t.children, vec!["a", "c"]);
}

#[test]
fn waitpid_specific_child() {
    let (mut t, st) = parent_with_children();
    let r = sys_waitpid(&mut t, &st, 5);
    assert_eq!(r.reply(), 5);
    assert_eq!(t.children, vec!["a", "b"]);
}

#[test]
fn waitpid_running_child_replies_minus_two() {
    let (mut t, st) = parent_with_children();
    let r = sys_waitpid(&mut t, &st, 3);
    assert!(matches!(r, WaitOutcome::StillRunning));
    assert_eq!(r.reply(), -2);
    assert_eq!(t.children.len(), 3);
}

#[test]
fn waitpid_unknown_child_replies_minus_one() {
    let (mut t, st) = parent_with_children();
    let r = sys_waitpid(&mut t, &st, 9);
    assert!(matches!(r, WaitOutcome::NoSuchChild));
    assert_eq!(r.reply(), -1);
    let mut none: TaskInner<u8> = TaskInner { task_status: TaskStatus::Running, exit_code: 0, parent: None, children: vec![] };
    assert_eq!(sys_waitpid(&mut none, &vec![], -1).reply(), -1);
}

#[test]
fn exec_and_fork_replies() {
    assert_eq!(task::sys_exec(true), 0);
    assert_eq!(task::sys_exec(false), -1);
    let mut child = TrapContext::app_init_context(0, 0, 0, 0, 0, 0);
    child.x[10] = 123;
    assert_eq!(task::sys_fork(&mut child, 8), 8);
    assert_eq!(child.x[10], 0);
}

#[test]
fn mmap_valid_request() {
    let (area, len) = sys_mmap(0x10000, 8192, 3, false).unwrap();
    assert_eq!(
        area,
        MmapArea { start: 0x10000, end: 0x10000 + 1024, perm: MapPermission { r: true, w: true, x: false, u: true } }
    );
    assert_eq!(len, 8192);
    let (area, len) = sys_mmap(0, 1, 4, false).unwrap();
    assert_eq!(area.perm, MapPermission { r: false, w: false, x: true, u: true });
    assert_eq!(len, 4096);
    let (_, len) = sys_mmap(0, 0, 1, false).unwrap();
    assert_eq!(len, 0);
}

#[test]
fn mmap_rejected_requests() {
    assert!(sys_mmap(0x1000, 4096, 0, false).is_none());
    assert!(sys_mmap(0x1000, 4096, 8, false).is_none());
    assert!(sys_mmap(0x1000, 4096, 9, false).is_none());
    assert!(sys_mmap(0x1001, 4096, 1, false).is_none());
    assert!(sys_mmap(0x1000, 4096, 1, true).is_none());
}

#[test]
fn munmap_page_counts() {
    assert_eq!(sys_unmap(1), 1);
    assert_eq!(sys_unmap(4096), 1);
    assert_eq!(sys_unmap(4097), 2);
}

#[test]
fn mmap_overlap_is_refused() {
    let (area, len) = sys_mmap(0x10000, 8192, 3, false).unwrap();
    assert_eq!(mmap_admit(area, len, true), None);
    assert_eq!(mmap_admit(area, len, false), Some((area, len)));
}

#[test]
fn task_reply_combines_fixed_reply_and_outcome() {
    assert_eq!(TaskService::Init.reply(42), 1);
    assert_eq!(TaskService::EnvCall.reply(42), 0);
    assert_eq!(TaskService::Unsupported.reply(42), -1);
    assert_eq!(TaskService::Token.reply(0x8000), 0x8000);
    assert_eq!(TaskService::Fork.reply(7), 7);
    assert_eq!(TaskService::Waitpid { pid: 1, exit_code_ptr: 0 }.reply(-2), -2);
}

#[test]
fn fork_exec_waitpid_requests_carry_any_body() {
    let t = Task;
    let b = [usize::MAX, 0x1234, 99];
    assert_eq!(t.decode(TASK_FORK, b), TaskService::Fork);
    assert_eq!(t.decode(TASK_EXEC, b), TaskService::Exec { path: usize::MAX });
    assert_eq!(t.decode(TASK_WAITPID, b), TaskService::Waitpid { pid: -1, exit_code_ptr: 0x1234 });
    assert_eq!(t.decode(TASK_FORK, b).fixed_reply(), None);
    assert_eq!(t.decode(TASK_EXEC, b).fixed_reply(), None);
    assert_eq!(t.decode(TASK_WAITPID, b).fixed_reply(), None);
}

#[test]
fn exit_without_children() {
    let mut t: TaskInner<u32> = TaskInner { task_status: TaskStatus::Running, exit_code: 0, parent: Some(0), children: vec![] };
    let mut init: TaskInner<u32> = TaskInner { task_status: TaskStatus::Running, exit_code: 0, parent: None, children: vec![9] };
    let mut parents: Vec<Option<usize>> = vec![];
    t.exit(3, &mut init, 0, &mut parents);
    assert_eq!(t.exit_code, 3);
    assert_eq!(init.children, vec![9]);
    assert!(parents.is_empty());
}

#[test]
fn console_calls_go_to_the_memory_manager() {
    let w = EnvCall::Write { buf: 0x1000, len: 12 };
    assert_eq!(w.memory_request(0x8000_0001), Some(host_bus::Message::new(MEMORY_MANAGER, MEMORY_WRITE, [0x8000_0001, 0x1000, 12])));
    let v = EnvCall::Writev { iov: 0x2000, count: 3 };
    assert_eq!(v.memory_request(7), Some(host_bus::Message::new(MEMORY_MANAGER, MEMORY_WRITEV, [7, 0x2000, 3])));
    let r = EnvCall::Read { buf: 0x3000, len: 1 };
    assert_eq!(r.memory_request(7), Some(host_bus::Message::new(MEMORY_MANAGER, MEMORY_READ, [7, 0x3000, 1])));
    assert_eq!(EnvCall::GetPid.memory_request(7), None);
    assert_eq!(EnvCall::Fork.memory_request(7), None);
    assert_eq!(MEMORY_MANAGER, 3);
    assert!(w.writes_return() && w.immediate_return().is_none());
}
