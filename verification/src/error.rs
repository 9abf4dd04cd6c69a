//! The errors that the library returns, and how a raw system call result
//! becomes one.

use vstd::prelude::*;
use crate::platform::Errnos;

verus! {

/// An error of one of the library's operations.
#[derive(Clone, Copy, Debug, PartialEq, Eq, Structural)]
pub enum Error {
    /// The system call failed with this error number.
    Sys(i32),
    /// The path cannot be handed to the system: it holds a NUL byte or is too
    /// long.
    InvalidPath,
    /// A name that was to be text is not valid UTF-8.
    InvalidUtf8,
    /// The platform cannot do what was asked.
    UnsupportedOperation,
}

/// What an [`Error`] means, whatever number the platform gives it.
#[derive(Clone, Copy, Debug, PartialEq, Eq, Structural)]
pub enum ErrorKind {
    NotFound,
    AlreadyExists,
    PermissionDenied,
    /// Too many levels of symbolic links; also: the target is a symbolic link
    /// and the caller asked for links to be refused.
    TooManySymlinks,
    UnsupportedOperation,
    /// The path or name is malformed.
    InvalidArgument,
    /// Any other failure of the system, with its error number.
    Os(i32),
}

impl Error {
    pub open spec fn spec_as_errno(self) -> Option<i32> {
        match self {
            Error::Sys(errno) => Some(errno),
            _ => None,
        }
    }

    /// The error number, if the error came from the system.
    #[verifier::when_used_as_spec(spec_as_errno)]
    pub fn as_errno(self) -> (r: Option<i32>)
        ensures
            r == self.spec_as_errno(),
    {
        match self {
            Error::Sys(errno) => Some(errno),
            _ => None,
        }
    }

    /// The error of a system call that failed with `errno`.
    pub fn from_errno(errno: i32) -> (e: Error)
        ensures
            e == Error::Sys(errno),
    {
        Error::Sys(errno)
    }

    pub open spec fn spec_is_errno(self, errno: i32) -> bool {
        self == Error::Sys(errno)
    }

    /// Whether the error is the system's error number `errno`.
    #[verifier::when_used_as_spec(spec_is_errno)]
    pub fn is_errno(self, errno: i32) -> (r: bool)
        ensures
            r == self.spec_is_errno(errno),
    {
        match self {
            Error::Sys(n) => n == errno,
            _ => false,
        }
    }

    pub open spec fn spec_kind(self, codes: Errnos) -> ErrorKind {
        match self {
            Error::Sys(n) => if n == codes.enoent {
                ErrorKind::NotFound
            } else if n == codes.eexist {
                ErrorKind::AlreadyExists
            } else if n == codes.eacces {
                ErrorKind::PermissionDenied
            } else if n == codes.eloop {
                ErrorKind::TooManySymlinks
            } else {
                ErrorKind::Os(n)
            },
            Error::InvalidPath => ErrorKind::InvalidArgument,
            Error::InvalidUtf8 => ErrorKind::InvalidArgument,
            Error::UnsupportedOperation => ErrorKind::UnsupportedOperation,
        }
    }

    /// Classifies the error by the platform's error numbers.
    #[verifier::when_used_as_spec(spec_kind)]
    pub fn kind(self, codes: Errnos) -> (k: ErrorKind)
        ensures
            k == self.spec_kind(codes),
    {
        match self {
            Error::Sys(n) => if n == codes.enoent {
                ErrorKind::NotFound
            } else if n == codes.eexist {
                ErrorKind::AlreadyExists
            } else if n == codes.eacces {
                ErrorKind::PermissionDenied
            } else if n == codes.eloop {
                ErrorKind::TooManySymlinks
            } else {
                ErrorKind::Os(n)
            },
            Error::InvalidPath => ErrorKind::InvalidArgument,
            Error::InvalidUtf8 => ErrorKind::InvalidArgument,
            Error::UnsupportedOperation => ErrorKind::UnsupportedOperation,
        }
    }
}

/// What a system call that returned `ret` has come to, `errno` being the
/// thread's error number right after it.
pub open spec fn spec_syscall_result(ret: i32, errno: i32) -> Result<i32, Error> {
    if ret == -1 {
        Err(Error::Sys(errno))
    } else {
        Ok(ret)
    }
}

/// Reads the result of a system call by the POSIX convention: `-1` is
/// failure, with the reason in `errno`; any other value is the result.
pub fn syscall_result(ret: i32, errno: i32) -> (r: Result<i32, Error>)
    ensures
        r == spec_syscall_result(ret, errno),
{
    if ret == -1 {
        Err(Error::Sys(errno))
    } else {
        Ok(ret)
    }
}

/// With distinct error numbers, each of the four named kinds belongs to
/// exactly one error: the kind tells the number.
pub proof fn lemma_kind_names_one_error(e: Error, codes: Errnos)
    requires
        codes.wf(),
    ensures
        e.spec_kind(codes) == ErrorKind::NotFound <==> e == Error::Sys(codes.enoent),
        e.spec_kind(codes) == ErrorKind::AlreadyExists <==> e == Error::Sys(codes.eexist),
        e.spec_kind(codes) == ErrorKind::PermissionDenied <==> e == Error::Sys(codes.eacces),
        e.spec_kind(codes) == ErrorKind::TooManySymlinks <==> e == Error::Sys(codes.eloop),
        e.spec_kind(codes) matches ErrorKind::Os(n) ==> e == Error::Sys(n),
{
}

} // verus!
