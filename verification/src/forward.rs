//! Trap handling for the kernel built on the module bus.
use vstd::prelude::*;
use crate::bus::Message;
use crate::config::{TASK_INIT, TASK_LOADAPP, TASK_RUNFIRST, TASK, TASK_ENVCALL, TASK_EXIT_RUNNEXT, TASK_SUSPEND_RUNNEXT, TIMER, TIMER_SETNEXT};
use crate::trap::{TrapCause, TrapKind, trap_kind, trap_kind_spec, EXIT_MEMORY_FAULT, EXIT_ILLEGAL_INSTRUCTION};

verus! {

/// The messages the kernel sends, in order, for a trap of kind `kind`.
pub open spec fn trap_messages_spec(kind: TrapKind) -> Seq<Message> {
    match kind {
        TrapKind::EnvCall => seq![Message { mod_id: TASK, body: [TASK_ENVCALL, 0usize, 0] }],
        TrapKind::MemoryFault => seq![
            Message { mod_id: TASK, body: [TASK_EXIT_RUNNEXT, EXIT_MEMORY_FAULT as usize, 0] },
        ],
        TrapKind::IllegalInstruction => seq![
            Message {
                mod_id: TASK,
                body: [TASK_EXIT_RUNNEXT, EXIT_ILLEGAL_INSTRUCTION as usize, 0],
            },
        ],
        TrapKind::Timer => seq![
            Message { mod_id: TIMER, body: [TIMER_SETNEXT, 0usize, 0] },
            Message { mod_id: TASK, body: [TASK_SUSPEND_RUNNEXT, 0usize, 0] },
        ],
    }
}

/// Decides how the kernel answers a trap with cause `cause`: its kind and the
/// messages to send, in order.  `None` for a cause that the kernel does not
/// handle, on which it stops.
pub fn mess_handler(cause: TrapCause) -> (r: Option<(TrapKind, Vec<Message>)>)
    ensures
        r is None <==> trap_kind_spec(cause) is None,
        r matches Some((k, ms)) ==> trap_kind_spec(cause) == Some(k) && ms@ == trap_messages_spec(k),
{
    let kind = match trap_kind(cause) {
        Some(k) => k,
        None => return None,
    };
    let mut ms: Vec<Message> = Vec::new();
    match kind {
        TrapKind::EnvCall => {
            ms.push(Message { mod_id: TASK, body: [TASK_ENVCALL, 0, 0] });
        },
        TrapKind::MemoryFault => {
            ms.push(Message { mod_id: TASK, body: [TASK_EXIT_RUNNEXT, EXIT_MEMORY_FAULT as usize, 0] });
        },
        TrapKind::IllegalInstruction => {
            ms.push(
                Message { mod_id: TASK, body: [TASK_EXIT_RUNNEXT, EXIT_ILLEGAL_INSTRUCTION as usize, 0] },
            );
        },
        TrapKind::Timer => {
            ms.push(Message { mod_id: TIMER, body: [TIMER_SETNEXT, 0, 0] });
            ms.push(Message { mod_id: TASK, body: [TASK_SUSPEND_RUNNEXT, 0, 0] });
        },
    }
    Some((kind, ms))
}

/// The messages the kernel sends at boot, in order, once its services are
/// registered: add the initial process, arm the timer, list the
/// applications, start running them.
pub open spec fn boot_messages_spec() -> Seq<Message> {
    seq![
        Message { mod_id: TASK, body: [TASK_INIT, 0usize, 0] },
        Message { mod_id: TIMER, body: [TIMER_SETNEXT, 0usize, 0] },
        Message { mod_id: TASK, body: [TASK_LOADAPP, 0usize, 0] },
        Message { mod_id: TASK, body: [TASK_RUNFIRST, 0usize, 0] },
    ]
}

/// The messages the kernel sends at boot, in order.
pub fn boot_messages() -> (ms: Vec<Message>)
    ensures
        ms@ == boot_messages_spec(),
{
    let mut ms: Vec<Message> = Vec::new();
    ms.push(Message { mod_id: TASK, body: [TASK_INIT, 0, 0] });
    ms.push(Message { mod_id: TIMER, body: [TIMER_SETNEXT, 0, 0] });
    ms.push(Message { mod_id: TASK, body: [TASK_LOADAPP, 0, 0] });
    ms.push(Message { mod_id: TASK, body: [TASK_RUNFIRST, 0, 0] });
    ms
}

} // verus!
