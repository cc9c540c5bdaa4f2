use hierarbus::bus;
use hierarbus::config::{FILE_SYSTEM, TASK, TIMER, VIRTUALMEMORY_WRITE};
use hierarbus::error::SysError;
use hierarbus::filesystem::{Filesystem, FsAction};
use hierarbus::host_bus;
use hierarbus::task::{self, begin_envcall, EnvCall};
use hierarbus::trap::TrapContext;
use hierarbus::user_bus;
use hierarbus::user_syscall;
use hierarbus::virtual_memory::{UserBuffer, VirtualMemory};

#[test]
fn registration_order_gives_configured_node_numbers() {
    let mut b: host_bus::Bus<&str> = host_bus::Bus::new();
    b.register("fs");
    b.register("timer");
    b.register("task");
    for (id, name) in [(FILE_SYSTEM, "fs"), (TIMER, "timer"), (TASK, "task")] {
        let r = b.dispatch(host_bus::Message::new(id, 9, [1, 2, 3]));
        assert_eq!(r, host_bus::Route::Deliver { index: id, service_id: 9, body: [1, 2, 3] });
        assert_eq!(b.acquire_inner_lock().register_table[id], Some(name));
    }
    b.register("mm");
    let r = b.dispatch(host_bus::Message::new(TIMER, 9, [1, 2, 3]));
    assert_eq!(r, host_bus::Route::Deliver { index: TIMER, service_id: 9, body: [1, 2, 3] });
    let r = b.dispatch(host_bus::Message::new(3, 4, [0, 0, 0]));
    assert_eq!(r, host_bus::Route::Deliver { index: 3, service_id: 4, body: [0, 0, 0] });
}

#[test]
fn module_numbers_below_256_always_forwarded() {
    let mut b: bus::Bus<u8> = bus::Bus::new();
    let id = b.register();
    b.acquire_inner_lock().register_table[id] = Some(1);
    let m = bus::Message::new(0, [1, 1, 1]);
    assert_eq!(b.dispatch(m), bus::Route::Forward { mod_id: 0, body: [1, 1, 1] });
}

#[test]
fn user_console_write_reaches_the_console_service() {
    let m = user_syscall::sys_write(0x4000, 11);
    let fs = Filesystem;
    let req = fs.decode(m.body).unwrap();
    let call = match fs.call(req) {
        FsAction::Call(c) => c,
        other => panic!("unexpected {:?}", other),
    };
    let vm_request = call.request(0x77);
    assert_eq!(vm_request.mod_id, VIRTUALMEMORY_WRITE);
    assert_eq!(VirtualMemory.request(vm_request.body), UserBuffer { token: 0x77, addr: 0x4000, len: 11 });
    assert_eq!(call.reply(VirtualMemory.reply()), 11);
}

#[test]
fn environment_call_carries_unserved_messages() {
    let m = host_bus::Message::new(7, 42, [10, 20, 30]);
    let regs = user_bus::Bus {}.dispatch(m);
    let mut cx = TrapContext::app_init_context(0x100, 0, 0, 0, 0, 0);
    cx.x[10] = regs.x10;
    cx.x[11] = regs.x11;
    cx.x[12] = regs.x12;
    cx.x[13] = regs.x13;
    cx.x[17] = regs.x17;
    assert_eq!(begin_envcall(&mut cx), EnvCall::Forward(m));
}

#[test]
fn mmap_length_is_whole_pages_for_examples() {
    for len in [0usize, 1, 4095, 4096, 4097, 100_000] {
        let (_, reply) = task::sys_mmap(0, len, 1, false).unwrap();
        let reply = reply as usize;
        assert_eq!(reply % 4096, 0);
        assert!(len <= reply && reply < len + 4096);
    }
}

#[test]
fn error_numbers_are_distinct_for_examples() {
    let all = [SysError::EPERM, SysError::ENOENT, SysError::EIDRM, SysError::ENOTSOCK, SysError::ETIMEDOUT];
    for a in all {
        for b in all {
            assert_eq!(a.code() == b.code(), a == b);
        }
    }
}

#[test]
fn user_calls_are_forwarded_to_the_kernel() {
    let mut b: bus::Bus<u8> = bus::Bus::new();
    let id = b.register();
    b.acquire_inner_lock().register_table[id] = Some(3);
    for m in [
        user_syscall::sys_write(1, 2),
        user_syscall::sys_read(0, 1, 1),
        user_syscall::sys_exit(-1),
        user_syscall::sys_yield(),
        user_syscall::sys_get_time(),
        user_syscall::sys_getpid(),
        user_syscall::sys_fork(),
        user_syscall::sys_exec(5),
        user_syscall::sys_waitpid(-1, 6),
    ] {
        assert_eq!(b.dispatch(m), bus::Route::Forward { mod_id: m.mod_id, body: m.body });
    }
}
