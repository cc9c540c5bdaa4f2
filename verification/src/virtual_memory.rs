//! The virtual-memory services: they copy between the console and user
//! buffers named by a page-table token and a user address.
//!
//! The translation of user addresses and the console itself are outside
//! this crate; here stand what the services decode from a request and what
//! they compute.
use vstd::prelude::*;
use crate::bus::Message;
use crate::config::{TASK, TASK_SUSPEND_RUNNEXT};

verus! {

/// Milliseconds per second.
pub const MSEC_PER_SEC: usize = 1000;
/// Nanoseconds per millisecond.
pub const NSEC_PER_MSEC: usize = 1000000;

/// A time as seconds and nanoseconds, as user programs read it.
#[derive(Clone, Copy, Debug, PartialEq, Eq)]
pub struct TimeSpec {
    pub sec: usize,
    pub nsec: usize,
}

/// One buffer of a vectored write: a user address and a length.
#[derive(Clone, Copy, Debug, PartialEq, Eq)]
pub struct IoVec {
    /// Starting address
    pub base: usize,
    /// Number of bytes to transfer
    pub len: usize,
}

/// A user buffer: the page-table token of its address space, its user
/// address and its length in bytes (or element count).
#[derive(Clone, Copy, Debug, PartialEq, Eq)]
pub struct UserBuffer {
    pub token: usize,
    pub addr: usize,
    pub len: usize,
}

/// The user buffer a request body names: token, address, length.
pub open spec fn user_buffer_spec(body: [usize; 3]) -> UserBuffer {
    UserBuffer { token: body[0], addr: body[1], len: body[2] }
}

/// Reads the user buffer named by a request body.
pub fn user_buffer(body: [usize; 3]) -> (b: UserBuffer)
    ensures
        b == user_buffer_spec(body),
{
    UserBuffer { token: body[0], addr: body[1], len: body[2] }
}

/// The time `ms` milliseconds after zero, as seconds and nanoseconds.
pub fn timespec_from_ms(ms: usize) -> (ts: TimeSpec)
    ensures
        ts.sec == ms / 1000,
        ts.nsec == (ms % 1000) * 1000000,
        ts.nsec < 1000000000,
        ts.sec * 1000 + ts.nsec / 1000000 == ms,
{
    let sec = ms / MSEC_PER_SEC;
    let rem = ms % MSEC_PER_SEC;
    assert(rem * 1000000 < 1000000000) by (nonlinear_arith)
        requires
            rem < 1000,
    ;
    let nsec = rem * NSEC_PER_MSEC;
    assert(nsec / 1000000 == rem) by (nonlinear_arith)
        requires
            nsec == rem * 1000000,
    ;
    TimeSpec { sec, nsec }
}

/// The total of the lengths of the first `n` buffers.
pub open spec fn iov_total(iovs: Seq<IoVec>, n: int) -> int
    decreases n,
{
    if n <= 0 {
        0
    } else {
        iov_total(iovs, n - 1) + iovs[n - 1].len
    }
}

proof fn lemma_iov_total_monotone(iovs: Seq<IoVec>, i: int, j: int)
    requires
        0 <= i <= j,
    ensures
        iov_total(iovs, i) <= iov_total(iovs, j),
    decreases j - i,
{
    if i < j {
        lemma_iov_total_monotone(iovs, i, j - 1);
    }
}

/// The console writes the buffer named by a request, then replies 1.
pub struct VirtualMemory;

impl VirtualMemory {
    /// The buffer that a write request names.
    pub fn request(&self, body: [usize; 3]) -> (b: UserBuffer)
        ensures
            b == user_buffer_spec(body),
    {
        user_buffer(body)
    }

    /// The reply once the buffer has been written.
    pub fn reply(&self) -> (r: isize)
        ensures
            r == 1,
    {
        1
    }
}

/// What the console-read service does with the character it polled.
#[derive(Clone, Copy, Debug, PartialEq, Eq)]
pub enum ConsoleStep {
    /// No character yet: give up the processor by sending this message on
    /// the module bus, then poll again.
    Yield(Message),
    /// Store this byte at the first byte of the user buffer; the reply is 1.
    Store(u8),
}

/// The console reads one character into the buffer named by a request.
pub struct VirtualMemory2;

impl VirtualMemory2 {
    /// The buffer that a read request names.
    pub fn request(&self, body: [usize; 3]) -> (b: UserBuffer)
        ensures
            b == user_buffer_spec(body),
    {
        user_buffer(body)
    }

    /// Decides what to do with the value `c` read from the console.
    pub fn on_char(&self, c: usize) -> (s: ConsoleStep)
        ensures
            c == 0 ==> (s matches ConsoleStep::Yield(m) && m.mod_id == TASK && m.body == [
                TASK_SUSPEND_RUNNEXT,
                0usize,
                0,
            ]),
            c != 0 ==> s == ConsoleStep::Store(c as u8),
    {
        if c == 0 {
            ConsoleStep::Yield(Message { mod_id: TASK, body: [TASK_SUSPEND_RUNNEXT, 0, 0] })
        } else {
            ConsoleStep::Store(c as u8)
        }
    }

    /// The reply once the byte has been stored.
    pub fn reply(&self) -> (r: isize)
        ensures
            r == 1,
    {
        1
    }
}

/// The clock service: writes the time given in milliseconds to the user
/// `TimeSpec` named by a request.
pub struct VirtualMemory3;

impl VirtualMemory3 {
    /// The token, the address of the user `TimeSpec`, and the value to store
    /// there, for a request carrying `[token, address, milliseconds]`.
    pub fn handle(&self, body: [usize; 3]) -> (r: (usize, usize, TimeSpec))
        ensures
            r.0 == body[0],
            r.1 == body[1],
            r.2.sec == body[2] / 1000,
            r.2.nsec == (body[2] % 1000) * 1000000,
    {
        (body[0], body[1], timespec_from_ms(body[2]))
    }

    /// The reply once the time has been stored.
    pub fn reply(&self) -> (r: isize)
        ensures
            r == 0,
    {
        0
    }
}

/// The vectored console write: writes each buffer of a user `IoVec` array in
/// turn, then a line break, and replies the total length.
pub struct MemoryWritev;

impl MemoryWritev {
    /// The token, the address of the `IoVec` array and its element count.
    pub fn request(&self, body: [usize; 3]) -> (b: UserBuffer)
        ensures
            b == user_buffer_spec(body),
    {
        user_buffer(body)
    }

    /// The reply for the buffers `iovs`: the sum of their lengths.
    pub fn reply(&self, iovs: &Vec<IoVec>) -> (r: isize)
        requires
            iov_total(iovs@, iovs@.len() as int) <= usize::MAX,
        ensures
            r == iov_total(iovs@, iovs@.len() as int) as usize as isize,
    {
        let mut ret: usize = 0;
        let mut i: usize = 0;
        while i < iovs.len()
            invariant
                i <= iovs@.len(),
                ret == iov_total(iovs@, i as int),
                iov_total(iovs@, iovs@.len() as int) <= usize::MAX,
            decreases iovs@.len() - i,
        {
            proof {
                lemma_iov_total_monotone(iovs@, i + 1, iovs@.len() as int);
            }
            ret = ret + iovs[i].len;
            i = i + 1;
        }
        ret as isize
    }
}

} // verus!
