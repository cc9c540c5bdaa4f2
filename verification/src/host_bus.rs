//! The node bus: messages carry a node number, a service number and a
//! three-word body.  Node `i` is slot `i` of the register table.
use vstd::prelude::*;
use crate::config::{TASK_INIT, TASK_LOADAPP, TASK_RUNFIRST, TASK, TASK_ENVCALL, TASK_EXIT_RUNNEXT, TASK_SUSPEND_RUNNEXT, TASK_TOKEN, TIMER, TIMER_SETNEXT};
use crate::trap::{TrapCause, TrapKind, trap_kind, trap_kind_spec, EXIT_MEMORY_FAULT, EXIT_ILLEGAL_INSTRUCTION};

verus! {

/// A message on the node bus.
#[derive(Clone, Copy, Debug, PartialEq, Eq)]
pub struct Message {
    pub node_id: usize,
    pub service_id: usize,
    pub body: [usize; 3],
}

impl Message {
    /// Builds a message for service `service_id` of node `node_id`.
    pub fn new(node_id: usize, service_id: usize, body: [usize; 3]) -> (m: Self)
        ensures
            m.node_id == node_id,
            m.service_id == service_id,
            m.body == body,
    {
        let m = Self { node_id, service_id, body };
        m
    }
}

/// Where the node bus sends a message.
#[derive(Clone, Copy, Debug, PartialEq, Eq)]
pub enum Route {
    /// Call the handler of node `index` with `service_id` and `body`.
    Deliver { index: usize, service_id: usize, body: [usize; 3] },
    /// The node number names no slot of the table: the bus reports it and
    /// replies -1.
    WrongNode,
    /// The slot holds no handler: the reply is -1.
    Vacant,
}

impl Route {
    /// The reply that is owed without calling any handler, where there is one.
    pub fn immediate_reply(&self) -> (r: Option<isize>)
        ensures
            r == (match *self {
                Route::Deliver { .. } => None::<isize>,
                _ => Some(-1isize),
            }),
    {
        match self {
            Route::Deliver { .. } => None,
            _ => Some(-1),
        }
    }
}

/// The route of message `m` on a bus whose register table is `table`.
pub open spec fn route_spec<H>(table: Seq<Option<H>>, m: Message) -> Route {
    if m.node_id >= table.len() {
        Route::WrongNode
    } else if table[m.node_id as int] is Some {
        Route::Deliver { index: m.node_id, service_id: m.service_id, body: m.body }
    } else {
        Route::Vacant
    }
}

/// The register table of a node bus: slot `i` serves node `i`.
pub struct BusInner<H> {
    pub register_table: Vec<Option<H>>,
}

/// A node bus over handlers of type `H`.
pub struct Bus<H> {
    inner: BusInner<H>,
}

impl<H> Bus<H> {
    /// The register table, slot by slot.
    pub closed spec fn table(&self) -> Seq<Option<H>> {
        self.inner.register_table@
    }

    /// A bus with an empty register table.
    pub fn new() -> (bus: Self)
        ensures
            bus.table() == Seq::<Option<H>>::empty(),
    {
        Bus { inner: BusInner { register_table: Vec::new() } }
    }

    /// Gives access to the register table.
    pub fn acquire_inner_lock(&mut self) -> (inner: &mut BusInner<H>)
        ensures
            inner.register_table@ == old(self).table(),
            final(self).table() == final(inner).register_table@,
    {
        &mut self.inner
    }

    /// Registers `node` as the next node; its number is the old table length.
    pub fn register(&mut self, node: H)
        ensures
            final(self).table() == old(self).table().push(Some(node)),
    {
        self.inner.register_table.push(Some(node));
    }

    /// Decides where message `m` goes.
    pub fn dispatch(&self, m: Message) -> (r: Route)
        ensures
            r == route_spec(self.table(), m),
    {
        if m.node_id >= self.inner.register_table.len() {
            Route::WrongNode
        } else if self.inner.register_table[m.node_id].is_some() {
            Route::Deliver { index: m.node_id, service_id: m.service_id, body: m.body }
        } else {
            Route::Vacant
        }
    }
}

/// The message asking the task manager for the current user page-table token.
pub fn token_request() -> (m: Message)
    ensures
        m.node_id == TASK,
        m.service_id == TASK_TOKEN,
        m.body == [0usize, 0, 0],
{
    Message { node_id: TASK, service_id: TASK_TOKEN, body: [0, 0, 0] }
}

/// The messages the kernel sends, in order, for a trap of kind `kind`.
pub open spec fn trap_messages_spec(kind: TrapKind) -> Seq<Message> {
    match kind {
        TrapKind::EnvCall => seq![Message { node_id: TASK, service_id: TASK_ENVCALL, body: [0usize, 0, 0] }],
        TrapKind::MemoryFault => seq![
            Message {
                node_id: TASK,
                service_id: TASK_EXIT_RUNNEXT,
                body: [EXIT_MEMORY_FAULT as usize, 0, 0],
            },
        ],
        TrapKind::IllegalInstruction => seq![
            Message {
                node_id: TASK,
                service_id: TASK_EXIT_RUNNEXT,
                body: [EXIT_ILLEGAL_INSTRUCTION as usize, 0, 0],
            },
        ],
        TrapKind::Timer => seq![
            Message { node_id: TIMER, service_id: TIMER_SETNEXT, body: [0usize, 0, 0] },
            Message { node_id: TASK, service_id: TASK_SUSPEND_RUNNEXT, body: [0usize, 0, 0] },
        ],
    }
}

/// Decides how the kernel answers a trap with cause `cause`: its kind and the
/// messages to send, in order.  `None` for a cause that the kernel does not
/// handle, on which it stops.
pub fn mess_handler(cause: TrapCause) -> (r: Option<(TrapKind, Vec<Message>)>)
    ensures
        r is None <==> trap_kind_spec(cause) is None,
        r matches Some((k, ms)) ==> trap_kind_spec(cause) == Some(k) && ms@ == trap_messages_spec(k),
{
    let kind = match trap_kind(cause) {
        Some(k) => k,
        None => return None,
    };
    let mut ms: Vec<Message> = Vec::new();
    match kind {
        TrapKind::EnvCall => {
            ms.push(Message { node_id: TASK, service_id: TASK_ENVCALL, body: [0, 0, 0] });
        },
        TrapKind::MemoryFault => {
            ms.push(
                Message {
                    node_id: TASK,
                    service_id: TASK_EXIT_RUNNEXT,
                    body: [EXIT_MEMORY_FAULT as usize, 0, 0],
                },
            );
        },
        TrapKind::IllegalInstruction => {
            ms.push(
                Message {
                    node_id: TASK,
                    service_id: TASK_EXIT_RUNNEXT,
                    body: [EXIT_ILLEGAL_INSTRUCTION as usize, 0, 0],
                },
            );
        },
        TrapKind::Timer => {
            ms.push(Message { node_id: TIMER, service_id: TIMER_SETNEXT, body: [0, 0, 0] });
            ms.push(Message { node_id: TASK, service_id: TASK_SUSPEND_RUNNEXT, body: [0, 0, 0] });
        },
    }
    Some((kind, ms))
}

/// The messages the kernel sends at boot, in order, once its services are
/// registered: add the initial process, arm the timer, list the
/// applications, start running them.
pub open spec fn boot_messages_spec() -> Seq<Message> {
    seq![
        Message { node_id: TASK, service_id: TASK_INIT, body: [0usize, 0, 0] },
        Message { node_id: TIMER, service_id: TIMER_SETNEXT, body: [0usize, 0, 0] },
        Message { node_id: TASK, service_id: TASK_LOADAPP, body: [0usize, 0, 0] },
        Message { node_id: TASK, service_id: TASK_RUNFIRST, body: [0usize, 0, 0] },
    ]
}

/// The messages the kernel sends at boot, in order.
pub fn boot_messages() -> (ms: Vec<Message>)
    ensures
        ms@ == boot_messages_spec(),
{
    let mut ms: Vec<Message> = Vec::new();
    ms.push(Message { node_id: TASK, service_id: TASK_INIT, body: [0, 0, 0] });
    ms.push(Message { node_id: TIMER, service_id: TIMER_SETNEXT, body: [0, 0, 0] });
    ms.push(Message { node_id: TASK, service_id: TASK_LOADAPP, body: [0, 0, 0] });
    ms.push(Message { node_id: TASK, service_id: TASK_RUNFIRST, body: [0, 0, 0] });
    ms
}

} // verus!
