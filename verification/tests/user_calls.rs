use hierarbus::user_syscall;
use hierarbus::user_bus;
use hierarbus::bus;
use hierarbus::host_bus;
use hierarbus::config::{
    FILE_SYSTEM, FS_READ, FS_WRITE, TASK, TASK_EXEC, TASK_EXIT, TASK_FORK, TASK_GETPID,
    TASK_SUSPEND_RUNNEXT, TASK_WAITPID, TIMER, TIMER_GET,
};
use hierarbus::task::{Task, TaskService};
use hierarbus::timer::{Timer, TimerService};
use hierarbus::filesystem::{Filesystem, FsRequest};

#[test]
fn module_bus_user_calls_build_their_messages() {
    assert_eq!(user_syscall::sys_write(0x1000, 12), bus::Message::new(FILE_SYSTEM, [FS_WRITE, 0x1000, 12]));
    assert_eq!(user_syscall::sys_read(0, 0x2000, 1), bus::Message::new(FILE_SYSTEM, [FS_READ, 0x2000, 1]));
    assert_eq!(user_syscall::sys_exit(-1), bus::Message::new(TASK, [TASK_EXIT, usize::MAX, 0]));
    assert_eq!(user_syscall::sys_exit(3), bus::Message::new(TASK, [TASK_EXIT, 3, 0]));
    assert_eq!(user_syscall::sys_yield(), bus::Message::new(TASK, [TASK_SUSPEND_RUNNEXT, 0, 0]));
    assert_eq!(user_syscall::sys_get_time(), bus::Message::new(TIMER, [TIMER_GET, 0, 0]));
    assert_eq!(user_syscall::sys_getpid(), bus::Message::new(TASK, [TASK_GETPID, 0, 0]));
    assert_eq!(user_syscall::sys_fork(), bus::Message::new(TASK, [TASK_FORK, 0, 0]));
    assert_eq!(user_syscall::sys_exec(0x3000), bus::Message::new(TASK, [TASK_EXEC, 0x3000, 0]));
    assert_eq!(user_syscall::sys_waitpid(-1, 0x4000), bus::Message::new(TASK, [TASK_WAITPID, usize::MAX, 0x4000]));
}

#[test]
fn node_bus_user_calls_build_their_messages() {
    assert_eq!(user_bus::sys_write(1, 0x1000, 12), host_bus::Message::new(FILE_SYSTEM, FS_WRITE, [1, 0x1000, 12]));
    assert_eq!(user_bus::sys_read(0, 0x2000, 1), host_bus::Message::new(FILE_SYSTEM, FS_READ, [0, 0x2000, 1]));
    assert_eq!(user_bus::sys_exit(-7), host_bus::Message::new(TASK, TASK_EXIT, [(-7i32) as usize, 0, 0]));
    assert_eq!(user_bus::sys_yield(), host_bus::Message::new(TASK, TASK_SUSPEND_RUNNEXT, [0, 0, 0]));
    assert_eq!(user_bus::sys_get_time(), host_bus::Message::new(TIMER, TIMER_GET, [0, 0, 0]));
    assert_eq!(user_bus::sys_getpid(), host_bus::Message::new(TASK, TASK_GETPID, [0, 0, 0]));
    assert_eq!(user_bus::sys_fork(), host_bus::Message::new(TASK, TASK_FORK, [0, 0, 0]));
    assert_eq!(user_bus::sys_exec(0x3000), host_bus::Message::new(TASK, TASK_EXEC, [0x3000, 0, 0]));
    assert_eq!(user_bus::sys_waitpid(4, 0x4000), host_bus::Message::new(TASK, TASK_WAITPID, [4, 0x4000, 0]));
}

#[test]
fn user_bus_hands_every_message_to_the_kernel() {
    let b = user_bus::Bus {};
    let r = b.dispatch(host_bus::Message::new(9, 77, [1, 2, 3]));
    assert_eq!(r, user_bus::EcallRegisters { x10: 1, x11: 2, x12: 3, x13: 77, x17: 9 });
    assert_eq!(user_bus::forward(5, 6, [7, 8, 9]), user_bus::EcallRegisters { x10: 7, x11: 8, x12: 9, x13: 6, x17: 5 });
}

#[test]
fn user_task_calls_are_understood_by_the_task_manager() {
    let task = Task;
    let m = user_bus::sys_exit(-42);
    assert_eq!(task.decode(m.service_id, m.body), TaskService::Exit { exit_code: -42 });
    let m = user_bus::sys_exec(0x5000);
    assert_eq!(task.decode(m.service_id, m.body), TaskService::Exec { path: 0x5000 });
    let m = user_bus::sys_waitpid(-1, 0x6000);
    assert_eq!(task.decode(m.service_id, m.body), TaskService::Waitpid { pid: -1, exit_code_ptr: 0x6000 });
    let m = user_bus::sys_yield();
    assert_eq!(task.decode(m.service_id, m.body), TaskService::SuspendRunNext);
    let m = user_bus::sys_getpid();
    assert_eq!(task.decode(m.service_id, m.body), TaskService::GetPid);
    let m = user_bus::sys_fork();
    assert_eq!(task.decode(m.service_id, m.body), TaskService::Fork);
    let m = user_bus::sys_get_time();
    assert_eq!(Timer.decode(m.service_id), Some(TimerService::Get));
}

#[test]
fn user_console_calls_are_understood_by_the_file_system() {
    let m = user_syscall::sys_write(0x7000, 5);
    assert_eq!(Filesystem.decode(m.body), Some(FsRequest::Write { buf: 0x7000, len: 5 }));
    let m = user_syscall::sys_read(0, 0x7100, 1);
    assert_eq!(Filesystem.decode(m.body), Some(FsRequest::Read { buf: 0x7100, len: 1 }));
}
