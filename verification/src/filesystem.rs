//! The file-system service: console reads and writes, carried out by the
//! virtual-memory services on the buffers of the current user.
//!
//! Each call first asks the task manager for the current user's page-table
//! token ([`crate::bus::token_request`]), then sends one request to a
//! virtual-memory service.  The two sends are made by the caller; here stand
//! the decisions and the messages.
use vstd::prelude::*;
use crate::bus::Message;
use crate::config::{FS_INIT, FS_READ, FS_WRITE, FS_WRITEV, VIRTUALMEMORY_READ, VIRTUALMEMORY_WRITE, VIRTUALMEMORY_WRITEV};

verus! {

/// The standard output descriptor, the only one the service writes.
pub const FD_STDOUT: usize = 1;

/// The request to a virtual-memory service that carries out a file-system
/// call, once the user token is known.
#[derive(Clone, Copy, Debug, PartialEq, Eq)]
pub struct FsCall {
    /// Module number of the virtual-memory service.
    pub module: usize,
    /// User address of the buffer (or of the `IoVec` array).
    pub buf: usize,
    /// Length of the buffer (or number of `IoVec`s).
    pub len: usize,
    /// The reply of the call where it does not depend on the service's
    /// reply; `None` when the service's reply is passed on.
    pub fixed_reply: Option<isize>,
}

/// The request of call `c` for the user whose page-table token is `token`.
pub open spec fn fs_call_request_spec(c: FsCall, token: usize) -> Message {
    Message { mod_id: c.module, body: [token, c.buf, c.len] }
}

impl FsCall {
    /// The request for the user whose page-table token is `token`.
    pub fn request(&self, token: usize) -> (m: Message)
        ensures
            m == fs_call_request_spec(*self, token),
            m.mod_id == self.module,
            m.body == [token, self.buf, self.len],
    {
        Message { mod_id: self.module, body: [token, self.buf, self.len] }
    }

    /// The reply of the call, given the reply `service_reply` of the
    /// virtual-memory service.
    pub fn reply(&self, service_reply: isize) -> (r: isize)
        ensures
            r == (match self.fixed_reply {
                Some(v) => v,
                None => service_reply,
            }),
    {
        match self.fixed_reply {
            Some(v) => v,
            None => service_reply,
        }
    }
}

/// Write `len` bytes at user address `buf` to descriptor `fd`: the reply is
/// `len`.  `None` for a descriptor other than standard output, which the
/// service does not support (the kernel stops).
pub fn sys_write(fd: usize, buf: usize, len: usize) -> (r: Option<FsCall>)
    ensures
        fd == FD_STDOUT ==> r == Some(
            FsCall { module: VIRTUALMEMORY_WRITE, buf, len, fixed_reply: Some(len as isize) },
        ),
        fd != FD_STDOUT ==> r is None,
{
    if fd == FD_STDOUT {
        Some(FsCall { module: VIRTUALMEMORY_WRITE, buf, len, fixed_reply: Some(len as isize) })
    } else {
        None
    }
}

/// Write the `iov_count` buffers of the `IoVec` array at user address
/// `iov_ptr` to descriptor `fd`: the reply is that of the service.  `None`
/// for a descriptor other than standard output (the kernel stops).
pub fn sys_writev(fd: usize, iov_ptr: usize, iov_count: usize) -> (r: Option<FsCall>)
    ensures
        fd == FD_STDOUT ==> r == Some(
            FsCall { module: VIRTUALMEMORY_WRITEV, buf: iov_ptr, len: iov_count, fixed_reply: None },
        ),
        fd != FD_STDOUT ==> r is None,
{
    if fd == FD_STDOUT {
        Some(FsCall { module: VIRTUALMEMORY_WRITEV, buf: iov_ptr, len: iov_count, fixed_reply: None })
    } else {
        None
    }
}

/// Read one byte from the console into user address `buf`: the reply is that
/// of the service.  `None` unless `len` is 1, the only length supported (the
/// kernel stops).
pub fn sys_read(buf: usize, len: usize) -> (r: Option<FsCall>)
    ensures
        len == 1 ==> r == Some(
            FsCall { module: VIRTUALMEMORY_READ, buf, len, fixed_reply: None },
        ),
        len != 1 ==> r is None,
{
    if len == 1 {
        Some(FsCall { module: VIRTUALMEMORY_READ, buf, len, fixed_reply: None })
    } else {
        None
    }
}

/// A request to the file-system service.
#[derive(Clone, Copy, Debug, PartialEq, Eq, Structural)]
pub enum FsRequest {
    /// Write `len` bytes at `buf` to standard output.
    Write { buf: usize, len: usize },
    /// Register the service on the bus; the reply is 1.
    Init,
    /// Read into `len` bytes at `buf`.
    Read { buf: usize, len: usize },
    /// Write `count` buffers of the `IoVec` array at `iov` to standard output.
    Writev { iov: usize, count: usize },
}

/// The request that a message body `[service, a, b]` names.
pub open spec fn fs_request_spec(body: [usize; 3]) -> Option<FsRequest> {
    if body[0] == FS_WRITE {
        Some(FsRequest::Write { buf: body[1], len: body[2] })
    } else if body[0] == FS_INIT {
        Some(FsRequest::Init)
    } else if body[0] == FS_READ {
        Some(FsRequest::Read { buf: body[1], len: body[2] })
    } else if body[0] == FS_WRITEV {
        Some(FsRequest::Writev { iov: body[1], count: body[2] })
    } else {
        None
    }
}

/// What carrying out request `req` takes.
pub open spec fn fs_action_spec(req: FsRequest) -> FsAction {
    match req {
        FsRequest::Write { buf, len } => FsAction::Call(
            FsCall { module: VIRTUALMEMORY_WRITE, buf, len, fixed_reply: Some(len as isize) },
        ),
        FsRequest::Init => FsAction::Register,
        FsRequest::Read { buf, len } => if len == 1 {
            FsAction::Call(FsCall { module: VIRTUALMEMORY_READ, buf, len, fixed_reply: None })
        } else {
            FsAction::Stop
        },
        FsRequest::Writev { iov, count } => FsAction::Call(
            FsCall { module: VIRTUALMEMORY_WRITEV, buf: iov, len: count, fixed_reply: None },
        ),
    }
}

/// The file-system service node.
pub struct Filesystem;

impl Filesystem {
    /// The request that a message body names; `None` for a service number
    /// the file system does not serve (the kernel stops).
    pub fn decode(&self, body: [usize; 3]) -> (r: Option<FsRequest>)
        ensures
            r == fs_request_spec(body),
    {
        if body[0] == FS_WRITE {
            Some(FsRequest::Write { buf: body[1], len: body[2] })
        } else if body[0] == FS_INIT {
            Some(FsRequest::Init)
        } else if body[0] == FS_READ {
            Some(FsRequest::Read { buf: body[1], len: body[2] })
        } else if body[0] == FS_WRITEV {
            Some(FsRequest::Writev { iov: body[1], count: body[2] })
        } else {
            None
        }
    }

    /// What carrying out request `req` takes.
    pub fn call(&self, req: FsRequest) -> (r: FsAction)
        ensures
            r == fs_action_spec(req),
            req matches FsRequest::Write { buf, len } ==> r == FsAction::Call(
                FsCall { module: VIRTUALMEMORY_WRITE, buf, len, fixed_reply: Some(len as isize) },
            ),
            req matches FsRequest::Read { buf, len } ==> (if len == 1 {
                r == FsAction::Call(
                    FsCall { module: VIRTUALMEMORY_READ, buf, len, fixed_reply: None },
                )
            } else {
                r == FsAction::Stop
            }),
            req matches FsRequest::Writev { iov, count } ==> r == FsAction::Call(
                FsCall { module: VIRTUALMEMORY_WRITEV, buf: iov, len: count, fixed_reply: None },
            ),
            req == FsRequest::Init ==> r == FsAction::Register,
    {
        match req {
            FsRequest::Write { buf, len } => match sys_write(FD_STDOUT, buf, len) {
                Some(c) => FsAction::Call(c),
                None => FsAction::Stop,
            },
            FsRequest::Init => FsAction::Register,
            FsRequest::Read { buf, len } => match sys_read(buf, len) {
                Some(c) => FsAction::Call(c),
                None => FsAction::Stop,
            },
            FsRequest::Writev { iov, count } => match sys_writev(FD_STDOUT, iov, count) {
                Some(c) => FsAction::Call(c),
                None => FsAction::Stop,
            },
        }
    }
}

/// How the file-system service carries out a request.
#[derive(Clone, Copy, Debug, PartialEq, Eq)]
pub enum FsAction {
    /// Ask for the user token, then make this call.
    Call(FsCall),
    /// Register the service on the bus; the reply is 1.
    Register,
    /// The request cannot be served: the kernel stops.
    Stop,
}

} // verus!
