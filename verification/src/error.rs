//! System error numbers and their descriptions.
use vstd::prelude::*;

verus! {

/// A system error, numbered as Linux numbers it.
#[derive(Clone, Copy, Debug, PartialEq, Eq, Structural)]
pub enum SysError {
    EUNDEF,
    EPERM,
    ENOENT,
    ESRCH,
    EINTR,
    EIO,
    ENXIO,
    E2BIG,
    ENOEXEC,
    EBADF,
    ECHILD,
    EAGAIN,
    ENOMEM,
    EACCES,
    EFAULT,
    ENOTBLK,
    EBUSY,
    EEXIST,
    EXDEV,
    ENODEV,
    ENOTDIR,
    EISDIR,
    EINVAL,
    ENFILE,
    EMFILE,
    ENOTTY,
    ETXTBSY,
    EFBIG,
    ENOSPC,
    ESPIPE,
    EROFS,
    EMLINK,
    EPIPE,
    EDOM,
    ERANGE,
    EDEADLK,
    ENAMETOOLONG,
    ENOLCK,
    ENOSYS,
    ENOTEMPTY,
    ELOOP,
    EIDRM,
    ENOTSOCK,
    ENOPROTOOPT,
    EPFNOSUPPORT,
    EAFNOSUPPORT,
    ENOBUFS,
    EISCONN,
    ENOTCONN,
    ETIMEDOUT,
    ECONNREFUSED,
}

/// The number of each error.
pub open spec fn code_spec(e: SysError) -> isize {
    match e {
        SysError::EUNDEF => 0isize,
        SysError::EPERM => 1isize,
        SysError::ENOENT => 2isize,
        SysError::ESRCH => 3isize,
        SysError::EINTR => 4isize,
        SysError::EIO => 5isize,
        SysError::ENXIO => 6isize,
        SysError::E2BIG => 7isize,
        SysError::ENOEXEC => 8isize,
        SysError::EBADF => 9isize,
        SysError::ECHILD => 10isize,
        SysError::EAGAIN => 11isize,
        SysError::ENOMEM => 12isize,
        SysError::EACCES => 13isize,
        SysError::EFAULT => 14isize,
        SysError::ENOTBLK => 15isize,
        SysError::EBUSY => 16isize,
        SysError::EEXIST => 17isize,
        SysError::EXDEV => 18isize,
        SysError::ENODEV => 19isize,
        SysError::ENOTDIR => 20isize,
        SysError::EISDIR => 21isize,
        SysError::EINVAL => 22isize,
        SysError::ENFILE => 23isize,
        SysError::EMFILE => 24isize,
        SysError::ENOTTY => 25isize,
        SysError::ETXTBSY => 26isize,
        SysError::EFBIG => 27isize,
        SysError::ENOSPC => 28isize,
        SysError::ESPIPE => 29isize,
        SysError::EROFS => 30isize,
        SysError::EMLINK => 31isize,
        SysError::EPIPE => 32isize,
        SysError::EDOM => 33isize,
        SysError::ERANGE => 34isize,
        SysError::EDEADLK => 35isize,
        SysError::ENAMETOOLONG => 36isize,
        SysError::ENOLCK => 37isize,
        SysError::ENOSYS => 38isize,
        SysError::ENOTEMPTY => 39isize,
        SysError::ELOOP => 40isize,
        SysError::EIDRM => 43isize,
        SysError::ENOTSOCK => 80isize,
        SysError::ENOPROTOOPT => 92isize,
        SysError::EPFNOSUPPORT => 96isize,
        SysError::EAFNOSUPPORT => 97isize,
        SysError::ENOBUFS => 105isize,
        SysError::EISCONN => 106isize,
        SysError::ENOTCONN => 107isize,
        SysError::ETIMEDOUT => 110isize,
        SysError::ECONNREFUSED => 111isize,
    }
}

/// The error that number `n` names, if any.
pub open spec fn from_code_spec(n: isize) -> Option<SysError> {
    if n == 0 {
        Some(SysError::EUNDEF)
    } else if n == 1 {
        Some(SysError::EPERM)
    } else if n == 2 {
        Some(SysError::ENOENT)
    } else if n == 3 {
        Some(SysError::ESRCH)
    } else if n == 4 {
        Some(SysError::EINTR)
    } else if n == 5 {
        Some(SysError::EIO)
    } else if n == 6 {
        Some(SysError::ENXIO)
    } else if n == 7 {
        Some(SysError::E2BIG)
    } else if n == 8 {
        Some(SysError::ENOEXEC)
    } else if n == 9 {
        Some(SysError::EBADF)
    } else if n == 10 {
        Some(SysError::ECHILD)
    } else if n == 11 {
        Some(SysError::EAGAIN)
    } else if n == 12 {
        Some(SysError::ENOMEM)
    } else if n == 13 {
        Some(SysError::EACCES)
    } else if n == 14 {
        Some(SysError::EFAULT)
    } else if n == 15 {
        Some(SysError::ENOTBLK)
    } else if n == 16 {
        Some(SysError::EBUSY)
    } else if n == 17 {
        Some(SysError::EEXIST)
    } else if n == 18 {
        Some(SysError::EXDEV)
    } else if n == 19 {
        Some(SysError::ENODEV)
    } else if n == 20 {
        Some(SysError::ENOTDIR)
    } else if n == 21 {
        Some(SysError::EISDIR)
    } else if n == 22 {
        Some(SysError::EINVAL)
    } else if n == 23 {
        Some(SysError::ENFILE)
    } else if n == 24 {
        Some(SysError::EMFILE)
    } else if n == 25 {
        Some(SysError::ENOTTY)
    } else if n == 26 {
        Some(SysError::ETXTBSY)
    } else if n == 27 {
        Some(SysError::EFBIG)
    } else if n == 28 {
        Some(SysError::ENOSPC)
    } else if n == 29 {
        Some(SysError::ESPIPE)
    } else if n == 30 {
        Some(SysError::EROFS)
    } else if n == 31 {
        Some(SysError::EMLINK)
    } else if n == 32 {
        Some(SysError::EPIPE)
    } else if n == 33 {
        Some(SysError::EDOM)
    } else if n == 34 {
        Some(SysError::ERANGE)
    } else if n == 35 {
        Some(SysError::EDEADLK)
    } else if n == 36 {
        Some(SysError::ENAMETOOLONG)
    } else if n == 37 {
        Some(SysError::ENOLCK)
    } else if n == 38 {
        Some(SysError::ENOSYS)
    } else if n == 39 {
        Some(SysError::ENOTEMPTY)
    } else if n == 40 {
        Some(SysError::ELOOP)
    } else if n == 43 {
        Some(SysError::EIDRM)
    } else if n == 80 {
        Some(SysError::ENOTSOCK)
    } else if n == 92 {
        Some(SysError::ENOPROTOOPT)
    } else if n == 96 {
        Some(SysError::EPFNOSUPPORT)
    } else if n == 97 {
        Some(SysError::EAFNOSUPPORT)
    } else if n == 105 {
        Some(SysError::ENOBUFS)
    } else if n == 106 {
        Some(SysError::EISCONN)
    } else if n == 107 {
        Some(SysError::ENOTCONN)
    } else if n == 110 {
        Some(SysError::ETIMEDOUT)
    } else if n == 111 {
        Some(SysError::ECONNREFUSED)
    } else {
        None
    }
}

/// The description of each error.
pub open spec fn message_spec(e: SysError) -> Seq<char> {
    match e {
        SysError::EUNDEF => "Unknown error"@,
        SysError::EPERM => "Operation not permitted"@,
        SysError::ENOENT => "No such file or directory"@,
        SysError::ESRCH => "No such process"@,
        SysError::EINTR => "Interrupted system call"@,
        SysError::EIO => "I/O error"@,
        SysError::ENXIO => "No such device or address"@,
        SysError::E2BIG => "Argument list too long"@,
        SysError::ENOEXEC => "Exec format error"@,
        SysError::EBADF => "Bad file number"@,
        SysError::ECHILD => "No child processes"@,
        SysError::EAGAIN => "Try again"@,
        SysError::ENOMEM => "Out of memory"@,
        SysError::EACCES => "Permission denied"@,
        SysError::EFAULT => "Bad address"@,
        SysError::ENOTBLK => "Block device required"@,
        SysError::EBUSY => "Device or resource busy"@,
        SysError::EEXIST => "File exists"@,
        SysError::EXDEV => "Cross-device link"@,
        SysError::ENODEV => "No such device"@,
        SysError::ENOTDIR => "Not a directory"@,
        SysError::EISDIR => "Is a directory"@,
        SysError::EINVAL => "Invalid argument"@,
        SysError::ENFILE => "File table overflow"@,
        SysError::EMFILE => "Too many open files"@,
        SysError::ENOTTY => "Not a typewriter"@,
        SysError::ETXTBSY => "Text file busy"@,
        SysError::EFBIG => "File too large"@,
        SysError::ENOSPC => "No space left on device"@,
        SysError::ESPIPE => "Illegal seek"@,
        SysError::EROFS => "Read-only file system"@,
        SysError::EMLINK => "Too many links"@,
        SysError::EPIPE => "Broken pipe"@,
        SysError::EDOM => "Math argument out of domain of func"@,
        SysError::ERANGE => "Math result not representable"@,
        SysError::EDEADLK => "Resource deadlock would occur"@,
        SysError::ENAMETOOLONG => "File name too long"@,
        SysError::ENOLCK => "No record locks available"@,
        SysError::ENOSYS => "Function not implemented"@,
        SysError::ENOTEMPTY => "Directory not empty"@,
        SysError::ELOOP => "Too many symbolic links encountered"@,
        SysError::EIDRM => "Unknown error"@,
        SysError::ENOTSOCK => "Socket operation on non-socket"@,
        SysError::ENOPROTOOPT => "Protocol not available"@,
        SysError::EPFNOSUPPORT => "Protocol family not supported"@,
        SysError::EAFNOSUPPORT => "Address family not supported by protocol"@,
        SysError::ENOBUFS => "No buffer space available"@,
        SysError::EISCONN => "Transport endpoint is already connected"@,
        SysError::ENOTCONN => "Transport endpoint is not connected"@,
        SysError::ETIMEDOUT => "Unknown error"@,
        SysError::ECONNREFUSED => "Connection refused"@,
    }
}



/// The length of a description and its characters at 3 and 8: no two
/// descriptions agree on all three.
pub open spec fn description_key(d: Seq<char>) -> (nat, char, char) {
    (d.len(), d[3], d[8])
}

/// The error with a description of its own whose description has key `k`.
pub open spec fn error_of_key(k: (nat, char, char)) -> Option<SysError> {
    if k == (23nat, 'r', 'n') {
        Some(SysError::EPERM)
    } else if k == (25nat, 's', 'f') {
        Some(SysError::ENOENT)
    } else if k == (15nat, 's', 'p') {
        Some(SysError::ESRCH)
    } else if k == (23nat, 'e', 't') {
        Some(SysError::EINTR)
    } else if k == (9nat, ' ', 'r') {
        Some(SysError::EIO)
    } else if k == (25nat, 's', 'd') {
        Some(SysError::ENXIO)
    } else if k == (22nat, 'u', ' ') {
        Some(SysError::E2BIG)
    } else if k == (17nat, 'c', 'm') {
        Some(SysError::ENOEXEC)
    } else if k == (15nat, ' ', ' ') {
        Some(SysError::EBADF)
    } else if k == (18nat, 'c', ' ') {
        Some(SysError::ECHILD)
    } else if k == (9nat, ' ', 'n') {
        Some(SysError::EAGAIN)
    } else if k == (13nat, ' ', 'e') {
        Some(SysError::ENOMEM)
    } else if k == (17nat, 'm', 'o') {
        Some(SysError::EACCES)
    } else if k == (11nat, ' ', 'e') {
        Some(SysError::EFAULT)
    } else if k == (21nat, 'c', 'v') {
        Some(SysError::ENOTBLK)
    } else if k == (23nat, 'i', 'r') {
        Some(SysError::EBUSY)
    } else if k == (11nat, 'e', 's') {
        Some(SysError::EEXIST)
    } else if k == (17nat, 's', 'v') {
        Some(SysError::EXDEV)
    } else if k == (14nat, 's', 'd') {
        Some(SysError::ENODEV)
    } else if k == (15nat, ' ', 'r') {
        Some(SysError::ENOTDIR)
    } else if k == (14nat, 'a', 'e') {
        Some(SysError::EISDIR)
    } else if k == (16nat, 'a', 'a') {
        Some(SysError::EINVAL)
    } else if k == (19nat, 'e', 'l') {
        Some(SysError::ENFILE)
    } else if k == (19nat, ' ', ' ') {
        Some(SysError::EMFILE)
    } else if k == (16nat, ' ', 'p') {
        Some(SysError::ENOTTY)
    } else if k == (14nat, 't', 'e') {
        Some(SysError::ETXTBSY)
    } else if k == (14nat, 'e', ' ') {
        Some(SysError::EFBIG)
    } else if k == (23nat, 's', ' ') {
        Some(SysError::ENOSPC)
    } else if k == (12nat, 'e', 's') {
        Some(SysError::ESPIPE)
    } else if k == (21nat, 'd', 'y') {
        Some(SysError::EROFS)
    } else if k == (14nat, ' ', ' ') {
        Some(SysError::EMLINK)
    } else if k == (11nat, 'k', 'i') {
        Some(SysError::EPIPE)
    } else if k == (35nat, 'h', 'u') {
        Some(SysError::EDOM)
    } else if k == (29nat, 'h', 'u') {
        Some(SysError::ERANGE)
    } else if k == (29nat, 'o', ' ') {
        Some(SysError::EDEADLK)
    } else if k == (18nat, 'e', 'e') {
        Some(SysError::ENAMETOOLONG)
    } else if k == (25nat, 'r', 'd') {
        Some(SysError::ENOLCK)
    } else if k == (24nat, 'c', ' ') {
        Some(SysError::ENOSYS)
    } else if k == (19nat, 'e', 'y') {
        Some(SysError::ENOTEMPTY)
    } else if k == (35nat, ' ', ' ') {
        Some(SysError::ELOOP)
    } else if k == (30nat, 'k', 'p') {
        Some(SysError::ENOTSOCK)
    } else if k == (22nat, 't', ' ') {
        Some(SysError::ENOPROTOOPT)
    } else if k == (29nat, 't', ' ') {
        Some(SysError::EPFNOSUPPORT)
    } else if k == (40nat, 'r', 'f') {
        Some(SysError::EAFNOSUPPORT)
    } else if k == (25nat, 'b', 'r') {
        Some(SysError::ENOBUFS)
    } else if k == (39nat, 'n', 't') {
        Some(SysError::EISCONN)
    } else if k == (35nat, 'n', 't') {
        Some(SysError::ENOTCONN)
    } else if k == (18nat, 'n', 'o') {
        Some(SysError::ECONNREFUSED)
    } else {
        None
    }
}

/// Whether error `e` has a description of its own.
pub open spec fn has_description(e: SysError) -> bool {
    !(e is EUNDEF || e is EIDRM || e is ETIMEDOUT)
}

/// The key of each description leads back to its error, that of
/// "Unknown error" to none, and the errors without a description of their
/// own read "Unknown error".
pub proof fn lemma_description_keys(e: SysError)
    ensures
        has_description(e) ==> error_of_key(description_key(message_spec(e))) == Some(e),
        error_of_key(description_key("Unknown error"@)) is None,
        !has_description(e) ==> message_spec(e) == "Unknown error"@,
{
    reveal_strlit("Address family not supported by protocol");
    reveal_strlit("Argument list too long");
    reveal_strlit("Bad address");
    reveal_strlit("Bad file number");
    reveal_strlit("Block device required");
    reveal_strlit("Broken pipe");
    reveal_strlit("Connection refused");
    reveal_strlit("Cross-device link");
    reveal_strlit("Device or resource busy");
    reveal_strlit("Directory not empty");
    reveal_strlit("Exec format error");
    reveal_strlit("File exists");
    reveal_strlit("File name too long");
    reveal_strlit("File table overflow");
    reveal_strlit("File too large");
    reveal_strlit("Function not implemented");
    reveal_strlit("I/O error");
    reveal_strlit("Illegal seek");
    reveal_strlit("Interrupted system call");
    reveal_strlit("Invalid argument");
    reveal_strlit("Is a directory");
    reveal_strlit("Math argument out of domain of func");
    reveal_strlit("Math result not representable");
    reveal_strlit("No buffer space available");
    reveal_strlit("No child processes");
    reveal_strlit("No record locks available");
    reveal_strlit("No space left on device");
    reveal_strlit("No such device");
    reveal_strlit("No such device or address");
    reveal_strlit("No such file or directory");
    reveal_strlit("No such process");
    reveal_strlit("Not a directory");
    reveal_strlit("Not a typewriter");
    reveal_strlit("Operation not permitted");
    reveal_strlit("Out of memory");
    reveal_strlit("Permission denied");
    reveal_strlit("Protocol family not supported");
    reveal_strlit("Protocol not available");
    reveal_strlit("Read-only file system");
    reveal_strlit("Resource deadlock would occur");
    reveal_strlit("Socket operation on non-socket");
    reveal_strlit("Text file busy");
    reveal_strlit("Too many links");
    reveal_strlit("Too many open files");
    reveal_strlit("Too many symbolic links encountered");
    reveal_strlit("Transport endpoint is already connected");
    reveal_strlit("Transport endpoint is not connected");
    reveal_strlit("Try again");
    reveal_strlit("Unknown error");
}

impl SysError {
    /// The error's number.
    pub fn code(&self) -> (r: isize)
        ensures
            r == code_spec(*self),
    {
        match self {
            SysError::EUNDEF => 0,
            SysError::EPERM => 1,
            SysError::ENOENT => 2,
            SysError::ESRCH => 3,
            SysError::EINTR => 4,
            SysError::EIO => 5,
            SysError::ENXIO => 6,
            SysError::E2BIG => 7,
            SysError::ENOEXEC => 8,
            SysError::EBADF => 9,
            SysError::ECHILD => 10,
            SysError::EAGAIN => 11,
            SysError::ENOMEM => 12,
            SysError::EACCES => 13,
            SysError::EFAULT => 14,
            SysError::ENOTBLK => 15,
            SysError::EBUSY => 16,
            SysError::EEXIST => 17,
            SysError::EXDEV => 18,
            SysError::ENODEV => 19,
            SysError::ENOTDIR => 20,
            SysError::EISDIR => 21,
            SysError::EINVAL => 22,
            SysError::ENFILE => 23,
            SysError::EMFILE => 24,
            SysError::ENOTTY => 25,
            SysError::ETXTBSY => 26,
            SysError::EFBIG => 27,
            SysError::ENOSPC => 28,
            SysError::ESPIPE => 29,
            SysError::EROFS => 30,
            SysError::EMLINK => 31,
            SysError::EPIPE => 32,
            SysError::EDOM => 33,
            SysError::ERANGE => 34,
            SysError::EDEADLK => 35,
            SysError::ENAMETOOLONG => 36,
            SysError::ENOLCK => 37,
            SysError::ENOSYS => 38,
            SysError::ENOTEMPTY => 39,
            SysError::ELOOP => 40,
            SysError::EIDRM => 43,
            SysError::ENOTSOCK => 80,
            SysError::ENOPROTOOPT => 92,
            SysError::EPFNOSUPPORT => 96,
            SysError::EAFNOSUPPORT => 97,
            SysError::ENOBUFS => 105,
            SysError::EISCONN => 106,
            SysError::ENOTCONN => 107,
            SysError::ETIMEDOUT => 110,
            SysError::ECONNREFUSED => 111,
        }
    }

    /// The error that number `n` names; `None` for a number that names none.
    pub fn from_code(n: isize) -> (r: Option<SysError>)
        ensures
            r == from_code_spec(n),
    {
        if n == 0 {
            Some(SysError::EUNDEF)
        } else if n == 1 {
            Some(SysError::EPERM)
        } else if n == 2 {
            Some(SysError::ENOENT)
        } else if n == 3 {
            Some(SysError::ESRCH)
        } else if n == 4 {
            Some(SysError::EINTR)
        } else if n == 5 {
            Some(SysError::EIO)
        } else if n == 6 {
            Some(SysError::ENXIO)
        } else if n == 7 {
            Some(SysError::E2BIG)
        } else if n == 8 {
            Some(SysError::ENOEXEC)
        } else if n == 9 {
            Some(SysError::EBADF)
        } else if n == 10 {
            Some(SysError::ECHILD)
        } else if n == 11 {
            Some(SysError::EAGAIN)
        } else if n == 12 {
            Some(SysError::ENOMEM)
        } else if n == 13 {
            Some(SysError::EACCES)
        } else if n == 14 {
            Some(SysError::EFAULT)
        } else if n == 15 {
            Some(SysError::ENOTBLK)
        } else if n == 16 {
            Some(SysError::EBUSY)
        } else if n == 17 {
            Some(SysError::EEXIST)
        } else if n == 18 {
            Some(SysError::EXDEV)
        } else if n == 19 {
            Some(SysError::ENODEV)
        } else if n == 20 {
            Some(SysError::ENOTDIR)
        } else if n == 21 {
            Some(SysError::EISDIR)
        } else if n == 22 {
            Some(SysError::EINVAL)
        } else if n == 23 {
            Some(SysError::ENFILE)
        } else if n == 24 {
            Some(SysError::EMFILE)
        } else if n == 25 {
            Some(SysError::ENOTTY)
        } else if n == 26 {
            Some(SysError::ETXTBSY)
        } else if n == 27 {
            Some(SysError::EFBIG)
        } else if n == 28 {
            Some(SysError::ENOSPC)
        } else if n == 29 {
            Some(SysError::ESPIPE)
        } else if n == 30 {
            Some(SysError::EROFS)
        } else if n == 31 {
            Some(SysError::EMLINK)
        } else if n == 32 {
            Some(SysError::EPIPE)
        } else if n == 33 {
            Some(SysError::EDOM)
        } else if n == 34 {
            Some(SysError::ERANGE)
        } else if n == 35 {
            Some(SysError::EDEADLK)
        } else if n == 36 {
            Some(SysError::ENAMETOOLONG)
        } else if n == 37 {
            Some(SysError::ENOLCK)
        } else if n == 38 {
            Some(SysError::ENOSYS)
        } else if n == 39 {
            Some(SysError::ENOTEMPTY)
        } else if n == 40 {
            Some(SysError::ELOOP)
        } else if n == 43 {
            Some(SysError::EIDRM)
        } else if n == 80 {
            Some(SysError::ENOTSOCK)
        } else if n == 92 {
            Some(SysError::ENOPROTOOPT)
        } else if n == 96 {
            Some(SysError::EPFNOSUPPORT)
        } else if n == 97 {
            Some(SysError::EAFNOSUPPORT)
        } else if n == 105 {
            Some(SysError::ENOBUFS)
        } else if n == 106 {
            Some(SysError::EISCONN)
        } else if n == 107 {
            Some(SysError::ENOTCONN)
        } else if n == 110 {
            Some(SysError::ETIMEDOUT)
        } else if n == 111 {
            Some(SysError::ECONNREFUSED)
        } else {
            None
        }
    }

    /// The error's description; "Unknown error" for the errors that have none.
    pub fn message(&self) -> (r: &'static str)
        ensures
            r@ == message_spec(*self),
    {
        match self {
            SysError::EUNDEF => "Unknown error",
            SysError::EPERM => "Operation not permitted",
            SysError::ENOENT => "No such file or directory",
            SysError::ESRCH => "No such process",
            SysError::EINTR => "Interrupted system call",
            SysError::EIO => "I/O error",
            SysError::ENXIO => "No such device or address",
            SysError::E2BIG => "Argument list too long",
            SysError::ENOEXEC => "Exec format error",
            SysError::EBADF => "Bad file number",
            SysError::ECHILD => "No child processes",
            SysError::EAGAIN => "Try again",
            SysError::ENOMEM => "Out of memory",
            SysError::EACCES => "Permission denied",
            SysError::EFAULT => "Bad address",
            SysError::ENOTBLK => "Block device required",
            SysError::EBUSY => "Device or resource busy",
            SysError::EEXIST => "File exists",
            SysError::EXDEV => "Cross-device link",
            SysError::ENODEV => "No such device",
            SysError::ENOTDIR => "Not a directory",
            SysError::EISDIR => "Is a directory",
            SysError::EINVAL => "Invalid argument",
            SysError::ENFILE => "File table overflow",
            SysError::EMFILE => "Too many open files",
            SysError::ENOTTY => "Not a typewriter",
            SysError::ETXTBSY => "Text file busy",
            SysError::EFBIG => "File too large",
            SysError::ENOSPC => "No space left on device",
            SysError::ESPIPE => "Illegal seek",
            SysError::EROFS => "Read-only file system",
            SysError::EMLINK => "Too many links",
            SysError::EPIPE => "Broken pipe",
            SysError::EDOM => "Math argument out of domain of func",
            SysError::ERANGE => "Math result not representable",
            SysError::EDEADLK => "Resource deadlock would occur",
            SysError::ENAMETOOLONG => "File name too long",
            SysError::ENOLCK => "No record locks available",
            SysError::ENOSYS => "Function not implemented",
            SysError::ENOTEMPTY => "Directory not empty",
            SysError::ELOOP => "Too many symbolic links encountered",
            SysError::EIDRM => "Unknown error",
            SysError::ENOTSOCK => "Socket operation on non-socket",
            SysError::ENOPROTOOPT => "Protocol not available",
            SysError::EPFNOSUPPORT => "Protocol family not supported",
            SysError::EAFNOSUPPORT => "Address family not supported by protocol",
            SysError::ENOBUFS => "No buffer space available",
            SysError::EISCONN => "Transport endpoint is already connected",
            SysError::ENOTCONN => "Transport endpoint is not connected",
            SysError::ETIMEDOUT => "Unknown error",
            SysError::ECONNREFUSED => "Connection refused",
        }
    }

    /// The error's description as an owned string.
    pub fn to_string(&self) -> (r: String)
        ensures
            r@ == message_spec(*self),
    {
        self.message().to_owned()
    }
}

} // verus!
