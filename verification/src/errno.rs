//! Failure kinds of the system-call layer and their Linux errno numbers.

use vstd::prelude::*;

verus! {

/// The failure kinds a system call can report.
///
/// `Other` carries the errno of a backend failure that has no kind of its own.
#[derive(Clone, Copy, Debug, PartialEq, Eq, Structural)]
pub enum SysError {
    /// Operation not permitted (`EPERM`).
    NotPermitted,
    /// No such file or directory (`ENOENT`).
    NoSuchEntry,
    /// No such process (`ESRCH`).
    NoSuchProcess,
    /// Bad file descriptor (`EBADF`).
    BadDescriptor,
    /// Permission denied (`EACCES`).
    PermissionDenied,
    /// Bad address (`EFAULT`).
    InvalidAddress,
    /// Not a directory (`ENOTDIR`).
    NotADirectory,
    /// Is a directory (`EISDIR`).
    IsADirectory,
    /// Invalid argument (`EINVAL`).
    InvalidArgument,
    /// Illegal byte sequence (`EILSEQ`).
    InvalidEncoding,
    /// Any other errno, as the backend reported it.
    Other(i32),
}

/// The error kind that stands for an errno number.
pub open spec fn kind_of_errno(errno: i32) -> SysError {
    if errno == 1 {
        SysError::NotPermitted
    } else if errno == 2 {
        SysError::NoSuchEntry
    } else if errno == 3 {
        SysError::NoSuchProcess
    } else if errno == 9 {
        SysError::BadDescriptor
    } else if errno == 13 {
        SysError::PermissionDenied
    } else if errno == 14 {
        SysError::InvalidAddress
    } else if errno == 20 {
        SysError::NotADirectory
    } else if errno == 21 {
        SysError::IsADirectory
    } else if errno == 22 {
        SysError::InvalidArgument
    } else if errno == 84 {
        SysError::InvalidEncoding
    } else {
        SysError::Other(errno)
    }
}

/// What the error crate makes of a backend error code other than
/// `i32::MIN`: the Linux errno it converts to, or `None` for a number that is
/// no error code of the backend.
pub uninterp spec fn backend_errno(code: i32) -> Option<i32>;

/// The error kind reported for a backend error code. A number that is no
/// backend error code is reported as an invalid argument; `i32::MIN`, which
/// the error crate cannot be asked about, is such a number.
pub open spec fn kind_of_backend(code: i32) -> SysError {
    if code == i32::MIN {
        SysError::InvalidArgument
    } else {
        match backend_errno(code) {
            Some(errno) => kind_of_errno(errno),
            None => SysError::InvalidArgument,
        }
    }
}

/// The value a system call hands back to user space: the result itself, or
/// the negated errno of the failure.
pub open spec fn return_value(r: Result<isize, SysError>) -> int {
    match r {
        Ok(v) => v as int,
        Err(e) => -(e.errno() as int),
    }
}

impl SysError {
    /// The Linux errno number of this kind.
    pub open spec fn errno(self) -> i32 {
        match self {
            SysError::NotPermitted => 1,
            SysError::NoSuchEntry => 2,
            SysError::NoSuchProcess => 3,
            SysError::BadDescriptor => 9,
            SysError::PermissionDenied => 13,
            SysError::InvalidAddress => 14,
            SysError::NotADirectory => 20,
            SysError::IsADirectory => 21,
            SysError::InvalidArgument => 22,
            SysError::InvalidEncoding => 84,
            SysError::Other(n) => n,
        }
    }

    /// `Other` is kept for the numbers that have no kind of their own.
    pub open spec fn wf(self) -> bool {
        match self {
            SysError::Other(n) => kind_of_errno(n) == SysError::Other(n),
            _ => true,
        }
    }

    /// The Linux errno number of this kind.
    pub fn code(self) -> (n: i32)
        ensures
            n == self.errno(),
    {
        match self {
            SysError::NotPermitted => 1,
            SysError::NoSuchEntry => 2,
            SysError::NoSuchProcess => 3,
            SysError::BadDescriptor => 9,
            SysError::PermissionDenied => 13,
            SysError::InvalidAddress => 14,
            SysError::NotADirectory => 20,
            SysError::IsADirectory => 21,
            SysError::InvalidArgument => 22,
            SysError::InvalidEncoding => 84,
            SysError::Other(n) => n,
        }
    }

    /// The kind that stands for an errno number.
    pub fn from_errno(errno: i32) -> (e: SysError)
        ensures
            e == kind_of_errno(errno),
            e.wf(),
            e.errno() == errno,
    {
        if errno == 1 {
            SysError::NotPermitted
        } else if errno == 2 {
            SysError::NoSuchEntry
        } else if errno == 3 {
            SysError::NoSuchProcess
        } else if errno == 9 {
            SysError::BadDescriptor
        } else if errno == 13 {
            SysError::PermissionDenied
        } else if errno == 14 {
            SysError::InvalidAddress
        } else if errno == 20 {
            SysError::NotADirectory
        } else if errno == 21 {
            SysError::IsADirectory
        } else if errno == 22 {
            SysError::InvalidArgument
        } else if errno == 84 {
            SysError::InvalidEncoding
        } else {
            SysError::Other(errno)
        }
    }

    /// The kind reported for a failure of the filesystem backend, given by the
    /// backend's error code.
    pub fn from_backend(code: i32) -> (e: SysError)
        ensures
            e == kind_of_backend(code),
            e.wf(),
    {
        if code == i32::MIN {
            SysError::InvalidArgument
        } else {
            SysError::from_converted(backend_code_to_errno(code))
        }
    }

    /// The kind reported for a backend failure, from what the error crate
    /// made of its code: the kind of the errno, or invalid-argument where the
    /// code was no backend error code.
    pub fn from_converted(converted: Option<i32>) -> (e: SysError)
        ensures
            e == (match converted {
                Some(errno) => kind_of_errno(errno),
                None => SysError::InvalidArgument,
            }),
            e.wf(),
    {
        match converted {
            Some(errno) => SysError::from_errno(errno),
            None => SysError::InvalidArgument,
        }
    }
}

/// Calls `axerrno::AxError::try_from(i32)`, `LinuxError::from(AxError)` and
/// `LinuxError::code`: the errno that the error crate converts a backend
/// error code to, `None` where it rejects the number. The result is named,
/// not stated: the table is the error crate's. `i32::MIN` is left out: the
/// error crate negates the number it is given.
#[verifier::external_body]
fn backend_code_to_errno(code: i32) -> (errno: Option<i32>)
    requires
        code != i32::MIN,
    ensures
        errno == backend_errno(code),
{
    match axerrno::AxError::try_from(code) {
        Ok(e) => Some(axerrno::LinuxError::from(e).code()),
        Err(_) => None,
    }
}

/// The backend error code that says "is a directory".
pub const BACKEND_IS_A_DIRECTORY: i32 = 21;

/// Reads the code of `axerrno::AxError::IsADirectory` with `AxError::code`;
/// the contract gives its value, the place of `IsADirectory` among the error
/// crate's kinds, which are numbered from 1.
#[verifier::external_body]
fn is_a_directory_code() -> (v: i32)
    ensures
        v == BACKEND_IS_A_DIRECTORY,
{
    axerrno::AxError::IsADirectory.code()
}

/// Whether a backend error code says that the path names a directory.
pub(crate) fn backend_is_a_directory(code: i32) -> (b: bool)
    ensures
        b == (code == BACKEND_IS_A_DIRECTORY),
{
    code == is_a_directory_code()
}

/// The value a system call hands back to user space.
pub fn syscall_return(r: Result<isize, SysError>) -> (v: i64)
    ensures
        v == return_value(r),
{
    match r {
        Ok(v) => v as i64,
        Err(e) => {
            let n: i64 = e.code() as i64;
            0 - n
        },
    }
}

/// Every well-formed kind is found again from its errno number.
pub proof fn errno_round_trip(e: SysError)
    requires
        e.wf(),
    ensures
        kind_of_errno(e.errno()) == e,
{
}

/// Two well-formed kinds with the same errno number are the same kind.
pub proof fn errno_is_injective(a: SysError, b: SysError)
    requires
        a.wf(),
        b.wf(),
        a.errno() == b.errno(),
    ensures
        a == b,
{
    errno_round_trip(a);
    errno_round_trip(b);
}

} // verus!
