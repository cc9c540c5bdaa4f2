use hierarbus::bus;
use hierarbus::host_bus;
use hierarbus::config::{TASK, TIMER, FILE_SYSTEM, TASK_TOKEN, TASK_INIT, TIMER_SETNEXT, TASK_LOADAPP, TASK_RUNFIRST};

#[test]
fn module_bus_register_returns_consecutive_slots() {
    let mut b: bus::Bus<u32> = bus::Bus::new();
    assert_eq!(b.register(), 0);
    assert_eq!(b.register(), 1);
    assert_eq!(b.acquire_inner_lock().register_table.len(), 2);
    assert_eq!(b.acquire_inner_lock().register_table[0], None);
}

#[test]
fn module_bus_forwards_low_module_numbers() {
    let b: bus::Bus<u32> = bus::Bus::new();
    let m = bus::Message::new(5, [1, 2, 3]);
    assert_eq!(b.dispatch(m), bus::Route::Forward { mod_id: 5, body: [1, 2, 3] });
    let m = bus::Message::new(255, [0, 0, 0]);
    assert_eq!(b.dispatch(m), bus::Route::Forward { mod_id: 255, body: [0, 0, 0] });
}

#[test]
fn module_bus_forwards_numbers_whose_offset_wraps() {
    let b: bus::Bus<u32> = bus::Bus::new();
    let m = bus::Message::new(usize::MAX, [7, 8, 9]);
    assert_eq!(b.dispatch(m), bus::Route::Forward { mod_id: usize::MAX, body: [7, 8, 9] });
}

#[test]
fn module_bus_reserved_slot_is_vacant_then_delivered() {
    let mut b: bus::Bus<u32> = bus::Bus::new();
    let id = b.register();
    let m = bus::Message::new(256 + id, [4, 5, 6]);
    let r = b.dispatch(m);
    assert_eq!(r, bus::Route::Vacant);
    assert_eq!(r.immediate_reply(), Some(0));
    b.acquire_inner_lock().register_table[id] = Some(42);
    let r = b.dispatch(m);
    assert_eq!(r, bus::Route::Deliver { index: id, body: [4, 5, 6] });
    assert_eq!(r.immediate_reply(), None);
}

#[test]
fn module_bus_unknown_local_module_is_wrong() {
    let mut b: bus::Bus<u32> = bus::Bus::new();
    b.register();
    let m = bus::Message::new(256 + 3, [0, 0, 0]);
    assert_eq!(b.dispatch(m), bus::Route::WrongModule);
}

#[test]
fn module_bus_token_request() {
    let m = bus::token_request();
    assert_eq!(m.mod_id, TASK);
    assert_eq!(m.body, [TASK_TOKEN, 0, 0]);
}

#[test]
fn node_bus_delivers_to_registered_node() {
    let mut b: host_bus::Bus<&str> = host_bus::Bus::new();
    b.register("filesystem");
    b.register("timer");
    b.register("task");
    let m = host_bus::Message::new(TIMER, 31, [1, 2, 3]);
    let r = b.dispatch(m);
    assert_eq!(r, host_bus::Route::Deliver { index: 1, service_id: 31, body: [1, 2, 3] });
    assert_eq!(r.immediate_reply(), None);
    assert_eq!(b.acquire_inner_lock().register_table[TIMER], Some("timer"));
    assert_eq!(b.acquire_inner_lock().register_table[FILE_SYSTEM], Some("filesystem"));
    assert_eq!(b.acquire_inner_lock().register_table[TASK], Some("task"));
}

#[test]
fn node_bus_rejects_unknown_node() {
    let mut b: host_bus::Bus<u8> = host_bus::Bus::new();
    b.register(1);
    let r = b.dispatch(host_bus::Message::new(7, 0, [0, 0, 0]));
    assert_eq!(r, host_bus::Route::WrongNode);
    assert_eq!(r.immediate_reply(), Some(-1));
}

#[test]
fn node_bus_vacant_slot_replies_minus_one() {
    let mut b: host_bus::Bus<u8> = host_bus::Bus::new();
    b.acquire_inner_lock().register_table.push(None);
    let r = b.dispatch(host_bus::Message::new(0, 3, [0, 0, 0]));
    assert_eq!(r, host_bus::Route::Vacant);
    assert_eq!(r.immediate_reply(), Some(-1));
}

#[test]
fn node_bus_boot_messages_in_order() {
    let ms = host_bus::boot_messages();
    assert_eq!(ms.len(), 4);
    assert_eq!((ms[0].node_id, ms[0].service_id), (TASK, TASK_INIT));
    assert_eq!((ms[1].node_id, ms[1].service_id), (TIMER, TIMER_SETNEXT));
    assert_eq!((ms[2].node_id, ms[2].service_id), (TASK, TASK_LOADAPP));
    assert_eq!((ms[3].node_id, ms[3].service_id), (TASK, TASK_RUNFIRST));
    assert!(ms.iter().all(|m| m.body == [0, 0, 0]));
}

#[test]
fn module_bus_boot_messages_in_order() {
    let ms = hierarbus::forward::boot_messages();
    assert_eq!(ms.len(), 4);
    assert_eq!(ms[0], bus::Message::new(TASK, [TASK_INIT, 0, 0]));
    assert_eq!(ms[1], bus::Message::new(TIMER, [TIMER_SETNEXT, 0, 0]));
    assert_eq!(ms[2], bus::Message::new(TASK, [TASK_LOADAPP, 0, 0]));
    assert_eq!(ms[3], bus::Message::new(TASK, [TASK_RUNFIRST, 0, 0]));
}

#[test]
fn node_bus_token_request() {
    let m = host_bus::token_request();
    assert_eq!(m, host_bus::Message::new(TASK, TASK_TOKEN, [0, 0, 0]));
}
