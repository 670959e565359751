//! The errors of fanotify operations.

use vstd::prelude::*;
use crate::linux::{EACCES, EAGAIN, EBADF, EINVAL, ENOENT, ENOSYS, EOVERFLOW, EPERM};

verus! {

/// Errors that can occur during fanotify operations.
#[derive(Debug, Clone, PartialEq, Eq)]
pub enum FanotifyError {
    /// The flags were rejected.
    InvalidFlags { message: String },
    /// The path does not name an existing entry, or cannot be handed to the kernel.
    InvalidPath { path: String },
    /// The kernel has no fanotify.
    NotSupported,
    /// The caller lacks the capability.
    PermissionDenied { message: String },
    /// A buffer or record is malformed, or an event cannot take the request.
    InvalidEventData { message: String },
    /// The kernel's event queue overflowed.
    BufferOverflow,
    /// Nothing to read now on a non-blocking group.
    WouldBlock,
    /// The descriptor is not valid.
    InvalidFd,
    /// A system call failed with an error number not named above.
    SyscallFailed { syscall: &'static str, errno: i32 },
    /// The event queue is empty.
    NoEvents,
    /// A mask holds bits that have no name.
    InvalidMask { message: String },
}

/// Results of fanotify operations.
pub type Result<T> = core::result::Result<T, FanotifyError>;

/// The error that an error number of a failed call stands for, as far as
/// it depends on the number alone.
pub open spec fn errno_error(syscall: &'static str, errno: i32, e: FanotifyError) -> bool {
    if errno == ENOSYS {
        e is NotSupported
    } else if errno == EACCES || errno == EPERM {
        e matches FanotifyError::PermissionDenied { message } && message@ == "Access denied"@
    } else if errno == EINVAL {
        e matches FanotifyError::InvalidFlags { message } && message@ == "Invalid flags"@
    } else if errno == ENOENT {
        e matches FanotifyError::InvalidPath { path } && path@ == "Path does not exist"@
    } else if errno == EAGAIN {
        e is WouldBlock
    } else if errno == EBADF {
        e is InvalidFd
    } else if errno == EOVERFLOW {
        e is BufferOverflow
    } else {
        e == FanotifyError::SyscallFailed { syscall, errno }
    }
}

impl FanotifyError {
    /// The error for a failed call to `syscall` that set `errno`.
    pub fn from_errno(syscall: &'static str, errno: i32) -> (r: FanotifyError)
        ensures
            errno_error(syscall, errno, r),
    {
        if errno == ENOSYS {
            FanotifyError::NotSupported
        } else if errno == EACCES || errno == EPERM {
            FanotifyError::permission_denied("Access denied")
        } else if errno == EINVAL {
            FanotifyError::invalid_flags("Invalid flags")
        } else if errno == ENOENT {
            FanotifyError::invalid_path("Path does not exist")
        } else if errno == EAGAIN {
            FanotifyError::WouldBlock
        } else if errno == EBADF {
            FanotifyError::InvalidFd
        } else if errno == EOVERFLOW {
            FanotifyError::BufferOverflow
        } else {
            FanotifyError::syscall_failed(syscall, errno)
        }
    }

    /// A permission denied error.
    pub fn permission_denied(message: &str) -> (r: FanotifyError)
        ensures
            r matches FanotifyError::PermissionDenied { message: m } && m@ == message@,
    {
        FanotifyError::PermissionDenied { message: message.to_owned() }
    }

    /// An invalid flags error.
    pub fn invalid_flags(message: &str) -> (r: FanotifyError)
        ensures
            r matches FanotifyError::InvalidFlags { message: m } && m@ == message@,
    {
        FanotifyError::InvalidFlags { message: message.to_owned() }
    }

    /// An invalid path error.
    pub fn invalid_path(path: &str) -> (r: FanotifyError)
        ensures
            r matches FanotifyError::InvalidPath { path: p } && p@ == path@,
    {
        FanotifyError::InvalidPath { path: path.to_owned() }
    }

    /// A failed system call error.
    pub fn syscall_failed(syscall: &'static str, errno: i32) -> (r: FanotifyError)
        ensures
            r == (FanotifyError::SyscallFailed { syscall, errno }),
    {
        FanotifyError::SyscallFailed { syscall, errno }
    }

    /// An invalid event data error.
    pub fn invalid_event_data(message: &str) -> (r: FanotifyError)
        ensures
            r matches FanotifyError::InvalidEventData { message: m } && m@ == message@,
    {
        FanotifyError::InvalidEventData { message: message.to_owned() }
    }

    /// An invalid mask error.
    pub fn invalid_mask(message: &str) -> (r: FanotifyError)
        ensures
            r matches FanotifyError::InvalidMask { message: m } && m@ == message@,
    {
        FanotifyError::InvalidMask { message: message.to_owned() }
    }
}

} // verus!
