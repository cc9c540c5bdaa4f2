//! The module bus: messages carry a module number and a three-word body.
//!
//! Module numbers below 256 belong to the host side and are forwarded to it;
//! a module number `256 + i` names slot `i` of the local register table.
use vstd::prelude::*;
use crate::config::{TASK, TASK_TOKEN};

verus! {

/// First module number served by the local register table.
pub const LOCAL_BASE: usize = 256;

/// A message on the module bus.
#[derive(Clone, Copy, Debug, PartialEq, Eq)]
pub struct Message {
    pub mod_id: usize,
    pub body: [usize; 3],
}

impl Message {
    /// Builds a message for module `mod_id`.
    pub fn new(mod_id: usize, body: [usize; 3]) -> (m: Self)
        ensures
            m.mod_id == mod_id,
            m.body == body,
    {
        let m = Self { mod_id, body };
        m
    }
}

/// Where the bus sends a message.
#[derive(Clone, Copy, Debug, PartialEq, Eq)]
pub enum Route {
    /// The module lives on the host side: hand the message over unchanged.
    Forward { mod_id: usize, body: [usize; 3] },
    /// Call the handler registered in slot `index` with `body`.
    Deliver { index: usize, body: [usize; 3] },
    /// The slot exists but holds no handler: the reply is 0.
    Vacant,
    /// The module number names no slot of the table.
    WrongModule,
}

impl Route {
    /// The reply that is owed without calling any handler, where there is one.
    pub fn immediate_reply(&self) -> (r: Option<isize>)
        ensures
            r == (match *self {
                Route::Vacant => Some(0isize),
                _ => None::<isize>,
            }),
    {
        match self {
            Route::Vacant => Some(0),
            _ => None,
        }
    }
}

/// Whether a module number is served by the host side.
///
/// With the wrap-around of the module number's subtraction, every number
/// below 256, and every number whose distance to 256 does not fit an `isize`,
/// is forwarded.
pub open spec fn is_forwarded(mod_id: usize) -> bool {
    mod_id < LOCAL_BASE || mod_id - LOCAL_BASE > isize::MAX
}

/// The route of message `m` on a bus whose register table is `table`.
pub open spec fn route_spec<H>(table: Seq<Option<H>>, m: Message) -> Route {
    if is_forwarded(m.mod_id) {
        Route::Forward { mod_id: m.mod_id, body: m.body }
    } else if m.mod_id - LOCAL_BASE >= table.len() {
        Route::WrongModule
    } else if table[m.mod_id - LOCAL_BASE] is Some {
        Route::Deliver { index: (m.mod_id - LOCAL_BASE) as usize, body: m.body }
    } else {
        Route::Vacant
    }
}

/// The register table of a bus: slot `i` serves module `256 + i`.
pub struct BusInner<H> {
    pub register_table: Vec<Option<H>>,
}

/// A module bus over handlers of type `H`.
pub struct Bus<H> {
    inner: BusInner<H>,
}

impl<H> Bus<H> {
    /// The register table, slot by slot.
    pub closed spec fn table(&self) -> Seq<Option<H>> {
        self.inner.register_table@
    }

    /// A bus with an empty register table.
    pub fn new() -> (bus: Self)
        ensures
            bus.table() == Seq::<Option<H>>::empty(),
    {
        Bus { inner: BusInner { register_table: Vec::new() } }
    }

    /// Gives access to the register table.
    pub fn acquire_inner_lock(&mut self) -> (inner: &mut BusInner<H>)
        ensures
            inner.register_table@ == old(self).table(),
            final(self).table() == final(inner).register_table@,
    {
        &mut self.inner
    }

    /// Reserves a new, empty slot and returns its index.
    pub fn register(&mut self) -> (id: usize)
        requires
            old(self).table().len() < usize::MAX,
        ensures
            id == old(self).table().len(),
            final(self).table() == old(self).table().push(None),
    {
        self.inner.register_table.push(None);
        self.inner.register_table.len() - 1
    }

    /// Decides where message `m` goes.
    pub fn dispatch(&self, m: Message) -> (r: Route)
        ensures
            r == route_spec(self.table(), m),
    {
        if m.mod_id < LOCAL_BASE || m.mod_id - LOCAL_BASE > isize::MAX as usize {
            return Route::Forward { mod_id: m.mod_id, body: m.body };
        }
        let id = m.mod_id - LOCAL_BASE;
        if id >= self.inner.register_table.len() {
            Route::WrongModule
        } else if self.inner.register_table[id].is_some() {
            Route::Deliver { index: id, body: m.body }
        } else {
            Route::Vacant
        }
    }
}

/// The message asking the task manager for the current user page-table token.
pub fn token_request() -> (m: Message)
    ensures
        m.mod_id == TASK,
        m.body == [TASK_TOKEN, 0usize, 0],
{
    Message { mod_id: TASK, body: [TASK_TOKEN, 0, 0] }
}

} // verus!
