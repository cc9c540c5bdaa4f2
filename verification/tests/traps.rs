use hierarbus::trap::{TrapCause, TrapContext, TrapKind, trap_kind, restore_va, EXIT_MEMORY_FAULT, EXIT_ILLEGAL_INSTRUCTION};
use hierarbus::host_bus;
use hierarbus::forward;
use hierarbus::bus;
use hierarbus::config::{TASK, TIMER, TASK_ENVCALL, TASK_EXIT_RUNNEXT, TIMER_SETNEXT, TASK_SUSPEND_RUNNEXT, TRAMPOLINE, TRAP_CONTEXT, PAGE_SIZE};
use hierarbus::task::{Task, TaskService};

#[test]
fn trap_kinds() {
    assert_eq!(trap_kind(TrapCause::UserEnvCall), Some(TrapKind::EnvCall));
    for c in [
        TrapCause::StoreFault,
        TrapCause::StorePageFault,
        TrapCause::InstructionFault,
        TrapCause::InstructionPageFault,
        TrapCause::LoadFault,
        TrapCause::LoadPageFault,
    ] {
        assert_eq!(trap_kind(c), Some(TrapKind::MemoryFault));
    }
    assert_eq!(trap_kind(TrapCause::IllegalInstruction), Some(TrapKind::IllegalInstruction));
    assert_eq!(trap_kind(TrapCause::SupervisorTimer), Some(TrapKind::Timer));
    assert_eq!(trap_kind(TrapCause::Other), None);
}

#[test]
fn node_bus_trap_messages() {
    let (k, ms) = host_bus::mess_handler(TrapCause::UserEnvCall).unwrap();
    assert_eq!(k, TrapKind::EnvCall);
    assert_eq!(ms, vec![host_bus::Message::new(TASK, TASK_ENVCALL, [0, 0, 0])]);
    let (k, ms) = host_bus::mess_handler(TrapCause::LoadPageFault).unwrap();
    assert_eq!(k, TrapKind::MemoryFault);
    assert_eq!(ms, vec![host_bus::Message::new(TASK, TASK_EXIT_RUNNEXT, [(-2i32) as usize, 0, 0])]);
    let (_, ms) = host_bus::mess_handler(TrapCause::IllegalInstruction).unwrap();
    assert_eq!(ms, vec![host_bus::Message::new(TASK, TASK_EXIT_RUNNEXT, [(-3i32) as usize, 0, 0])]);
    let (k, ms) = host_bus::mess_handler(TrapCause::SupervisorTimer).unwrap();
    assert_eq!(k, TrapKind::Timer);
    assert_eq!(
        ms,
        vec![
            host_bus::Message::new(TIMER, TIMER_SETNEXT, [0, 0, 0]),
            host_bus::Message::new(TASK, TASK_SUSPEND_RUNNEXT, [0, 0, 0]),
        ]
    );
    assert!(host_bus::mess_handler(TrapCause::Other).is_none());
}

#[test]
fn module_bus_trap_messages() {
    let (_, ms) = forward::mess_handler(TrapCause::UserEnvCall).unwrap();
    assert_eq!(ms, vec![bus::Message::new(TASK, [TASK_ENVCALL, 0, 0])]);
    let (_, ms) = forward::mess_handler(TrapCause::StoreFault).unwrap();
    assert_eq!(ms, vec![bus::Message::new(TASK, [TASK_EXIT_RUNNEXT, (-2i32) as usize, 0])]);
    let (_, ms) = forward::mess_handler(TrapCause::IllegalInstruction).unwrap();
    assert_eq!(ms, vec![bus::Message::new(TASK, [TASK_EXIT_RUNNEXT, (-3i32) as usize, 0])]);
    let (_, ms) = forward::mess_handler(TrapCause::SupervisorTimer).unwrap();
    assert_eq!(
        ms,
        vec![bus::Message::new(TIMER, [TIMER_SETNEXT, 0, 0]), bus::Message::new(TASK, [TASK_SUSPEND_RUNNEXT, 0, 0])]
    );
    assert!(forward::mess_handler(TrapCause::Other).is_none());
}

#[test]
fn faulting_application_exits_with_negative_code() {
    let task = Task;
    let (_, ms) = host_bus::mess_handler(TrapCause::StorePageFault).unwrap();
    assert_eq!(task.decode(ms[0].service_id, ms[0].body), TaskService::ExitRunNext { exit_code: EXIT_MEMORY_FAULT });
    assert_eq!(EXIT_MEMORY_FAULT, -2);
    let (_, ms) = host_bus::mess_handler(TrapCause::IllegalInstruction).unwrap();
    assert_eq!(task.decode(ms[0].service_id, ms[0].body), TaskService::ExitRunNext { exit_code: EXIT_ILLEGAL_INSTRUCTION });
    assert_eq!(EXIT_ILLEGAL_INSTRUCTION, -3);
    let (_, ms) = host_bus::mess_handler(TrapCause::SupervisorTimer).unwrap();
    assert_eq!(task.decode(ms[1].service_id, ms[1].body), TaskService::SuspendRunNext);
}

#[test]
fn application_context_starts_in_user_mode() {
    let cx = TrapContext::app_init_context(0x1000, 0x8000, 7, 0x9000, 0xabc, 0x122);
    assert_eq!(cx.x[2], 0x8000);
    assert!(cx.x.iter().enumerate().all(|(i, v)| i == 2 || *v == 0));
    assert_eq!(cx.sstatus, 0x22);
    assert_eq!(cx.sepc, 0x1000);
    assert_eq!(cx.kernel_satp, 7);
    assert_eq!(cx.kernel_sp, 0x9000);
    assert_eq!(cx.trap_handler, 0xabc);
}

#[test]
fn set_sp_and_set_return_write_their_registers() {
    let mut cx = TrapContext::app_init_context(0, 0, 0, 0, 0, 0);
    cx.set_sp(0x55);
    cx.set_return(0x66);
    assert_eq!(cx.x[2], 0x55);
    assert_eq!(cx.x[10], 0x66);
    assert_eq!(cx.x.iter().filter(|v| **v != 0).count(), 2);
}

#[test]
fn restore_routine_address_in_trampoline() {
    assert_eq!(restore_va(0x8020_0100, 0x8020_0000), TRAMPOLINE + 0x100);
    assert_eq!(TRAMPOLINE, usize::MAX - 0xfff);
    assert_eq!(TRAP_CONTEXT, TRAMPOLINE - PAGE_SIZE);
}
