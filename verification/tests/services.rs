use hierarbus::filesystem::{self, Filesystem, FsAction, FsCall, FsRequest, FD_STDOUT};
use hierarbus::timer::{self, Timer, TimerService};
use hierarbus::virtual_memory::{
    timespec_from_ms, user_buffer, ConsoleStep, IoVec, MemoryWritev, TimeSpec, UserBuffer, VirtualMemory,
    VirtualMemory2, VirtualMemory3,
};
use hierarbus::bus;
use hierarbus::config::{
    FS_INIT, FS_READ, FS_WRITE, FS_WRITEV, TASK, TASK_SUSPEND_RUNNEXT, TIMER_GET, TIMER_INIT,
    TIMER_SETNEXT, VIRTUALMEMORY_READ, VIRTUALMEMORY_WRITE, VIRTUALMEMORY_WRITEV,
};

#[test]
fn fs_write_to_stdout_replies_its_length() {
    let c = filesystem::sys_write(FD_STDOUT, 0x100, 7).unwrap();
    assert_eq!(c, FsCall { module: VIRTUALMEMORY_WRITE, buf: 0x100, len: 7, fixed_reply: Some(7) });
    assert_eq!(c.request(0xdead), bus::Message::new(VIRTUALMEMORY_WRITE, [0xdead, 0x100, 7]));
    assert_eq!(c.reply(1), 7);
}

#[test]
fn fs_write_to_other_descriptor_is_refused() {
    assert!(filesystem::sys_write(2, 0x100, 7).is_none());
    assert!(filesystem::sys_writev(0, 0x100, 2).is_none());
}

#[test]
fn fs_writev_passes_the_service_reply_on() {
    let c = filesystem::sys_writev(FD_STDOUT, 0x200, 3).unwrap();
    assert_eq!(c.request(9), bus::Message::new(VIRTUALMEMORY_WRITEV, [9, 0x200, 3]));
    assert_eq!(c.reply(42), 42);
}

#[test]
fn fs_read_only_one_byte() {
    let c = filesystem::sys_read(0x300, 1).unwrap();
    assert_eq!(c.request(5), bus::Message::new(VIRTUALMEMORY_READ, [5, 0x300, 1]));
    assert_eq!(c.reply(1), 1);
    assert!(filesystem::sys_read(0x300, 2).is_none());
    assert!(filesystem::sys_read(0x300, 0).is_none());
}

#[test]
fn fs_decodes_its_services() {
    let fs = Filesystem;
    assert_eq!(fs.decode([FS_WRITE, 1, 2]), Some(FsRequest::Write { buf: 1, len: 2 }));
    assert_eq!(fs.decode([FS_INIT, 1, 2]), Some(FsRequest::Init));
    assert_eq!(fs.decode([FS_READ, 3, 1]), Some(FsRequest::Read { buf: 3, len: 1 }));
    assert_eq!(fs.decode([FS_WRITEV, 4, 5]), Some(FsRequest::Writev { iov: 4, count: 5 }));
    assert_eq!(fs.decode([99, 4, 5]), None);
}

#[test]
fn fs_actions() {
    let fs = Filesystem;
    assert_eq!(fs.call(FsRequest::Init), FsAction::Register);
    assert_eq!(fs.call(FsRequest::Read { buf: 1, len: 2 }), FsAction::Stop);
    assert_eq!(
        fs.call(FsRequest::Write { buf: 1, len: 2 }),
        FsAction::Call(FsCall { module: VIRTUALMEMORY_WRITE, buf: 1, len: 2, fixed_reply: Some(2) })
    );
    assert_eq!(
        fs.call(FsRequest::Writev { iov: 8, count: 2 }),
        FsAction::Call(FsCall { module: VIRTUALMEMORY_WRITEV, buf: 8, len: 2, fixed_reply: None })
    );
}

#[test]
fn timer_conversions() {
    assert_eq!(timer::get_time_ms(0), 0);
    assert_eq!(timer::get_time_ms(12499), 0);
    assert_eq!(timer::get_time_ms(25000), 2);
    assert_eq!(timer::set_next_trigger(10), 125010);
}

#[test]
fn timer_decodes_and_replies() {
    let t = Timer;
    assert_eq!(t.decode(TIMER_GET), Some(TimerService::Get));
    assert_eq!(t.decode(TIMER_SETNEXT), Some(TimerService::SetNext));
    assert_eq!(t.decode(TIMER_INIT), Some(TimerService::Init));
    assert_eq!(t.decode(0), None);
    assert_eq!(t.reply(TimerService::Get, 1234), 1234);
    assert_eq!(t.reply(TimerService::SetNext, 1234), 1);
    assert_eq!(t.reply(TimerService::Init, 0), 1);
}

#[test]
fn timespec_split() {
    assert_eq!(timespec_from_ms(1234), TimeSpec { sec: 1, nsec: 234_000_000 });
    assert_eq!(timespec_from_ms(999), TimeSpec { sec: 0, nsec: 999_000_000 });
    assert_eq!(timespec_from_ms(5000), TimeSpec { sec: 5, nsec: 0 });
}

#[test]
fn virtual_memory_requests_and_replies() {
    assert_eq!(user_buffer([1, 2, 3]), UserBuffer { token: 1, addr: 2, len: 3 });
    assert_eq!(VirtualMemory.request([4, 5, 6]), UserBuffer { token: 4, addr: 5, len: 6 });
    assert_eq!(VirtualMemory.reply(), 1);
    assert_eq!(VirtualMemory2.request([4, 5, 1]), UserBuffer { token: 4, addr: 5, len: 1 });
    assert_eq!(VirtualMemory2.reply(), 1);
    assert_eq!(VirtualMemory3.handle([7, 8, 2500]), (7, 8, TimeSpec { sec: 2, nsec: 500_000_000 }));
    assert_eq!(VirtualMemory3.reply(), 0);
    assert_eq!(MemoryWritev.request([1, 0x10, 2]), UserBuffer { token: 1, addr: 0x10, len: 2 });
}

#[test]
fn console_read_yields_until_a_character_arrives() {
    let vm = VirtualMemory2;
    assert_eq!(vm.on_char(0), ConsoleStep::Yield(bus::Message::new(TASK, [TASK_SUSPEND_RUNNEXT, 0, 0])));
    assert_eq!(vm.on_char(65), ConsoleStep::Store(65));
    assert_eq!(vm.on_char(0x141), ConsoleStep::Store(0x41));
}

#[test]
fn writev_replies_total_length() {
    let iovs = vec![IoVec { base: 0x10, len: 3 }, IoVec { base: 0x20, len: 4 }, IoVec { base: 0, len: 0 }];
    assert_eq!(MemoryWritev.reply(&iovs), 7);
    assert_eq!(MemoryWritev.reply(&Vec::new()), 0);
}
