//! Constants and record layouts of the kernel's fanotify interface.
//!
//! Values are those of Linux; the byte order of the records is little-endian.
#![allow(non_camel_case_types)]

use vstd::prelude::*;

verus! {

// Event mask bits.
pub const FAN_ACCESS: u64 = 0x00000001;
pub const FAN_MODIFY: u64 = 0x00000002;
pub const FAN_ATTRIB: u64 = 0x00000004;
pub const FAN_CLOSE_WRITE: u64 = 0x00000008;
pub const FAN_CLOSE_NOWRITE: u64 = 0x00000010;
pub const FAN_OPEN: u64 = 0x00000020;
pub const FAN_MOVED_FROM: u64 = 0x00000040;
pub const FAN_MOVED_TO: u64 = 0x00000080;
pub const FAN_CREATE: u64 = 0x00000100;
pub const FAN_DELETE: u64 = 0x00000200;
pub const FAN_DELETE_SELF: u64 = 0x00000400;
pub const FAN_MOVE_SELF: u64 = 0x00000800;
pub const FAN_OPEN_PERM: u64 = 0x00001000;
pub const FAN_ACCESS_PERM: u64 = 0x00002000;
pub const FAN_OPEN_EXEC_PERM: u64 = 0x00004000;
pub const FAN_OPEN_EXEC: u64 = 0x00008000;
pub const FAN_Q_OVERFLOW: u64 = 0x00004000;
pub const FAN_FS_ERROR: u64 = 0x00008000;
pub const FAN_UNMOUNT: u64 = 0x00002000;
pub const FAN_ISDIR: u64 = 0x40000000;
pub const FAN_ONLYDIR: u64 = 0x01000000;
pub const FAN_DONT_FOLLOW: u64 = 0x02000000;
pub const FAN_EXCL_UNLINK: u64 = 0x04000000;
pub const FAN_MASK_ADD: u64 = 0x20000000;
pub const FAN_IGNORED_MASK: u64 = 0x80000000;
pub const FAN_IGNORED_SURV_MODIFY: u64 = 0x00002000;
pub const FAN_EVENT_ON_CHILD: u64 = 0x08000000;

// Mark operations.
pub const FAN_MARK_ADD: u32 = 0x00000001;
pub const FAN_MARK_REMOVE: u32 = 0x00000002;
pub const FAN_MARK_DONT_FOLLOW: u32 = 0x00000004;
pub const FAN_MARK_ONLYDIR: u32 = 0x00000008;
pub const FAN_MARK_MOUNT: u32 = 0x00000010;
pub const FAN_MARK_IGNORED_MASK: u32 = 0x00000020;
pub const FAN_MARK_IGNORED_SURV_MODIFY: u32 = 0x00000040;
pub const FAN_MARK_FLUSH: u32 = 0x00000080;

/// Directory descriptor that makes a relative path start at the working directory.
pub const AT_FDCWD: i32 = -100;

// Responses to permission events.
pub const FAN_ALLOW: u32 = 0x01;
pub const FAN_DENY: u32 = 0x02;

// Flags of a new notification group.
pub const FAN_CLOEXEC: u32 = 0x00000001;
pub const FAN_NONBLOCK: u32 = 0x00000002;
pub const FAN_CLASS_NOTIF: u32 = 0x00000000;
pub const FAN_CLASS_CONTENT: u32 = 0x00000004;
pub const FAN_CLASS_PRE_CONTENT: u32 = 0x00000008;
pub const FAN_UNLIMITED_QUEUE: u32 = 0x00000010;
pub const FAN_UNLIMITED_MARKS: u32 = 0x00000020;
pub const FAN_REPORT_TID: u32 = 0x00000100;
pub const FAN_REPORT_FID: u32 = 0x00000200;
pub const FAN_REPORT_DIR_FID: u32 = 0x00000400;
pub const FAN_REPORT_NAME: u32 = 0x00000800;
pub const FAN_REPORT_DFID_NAME: u32 = 0x00000c00;

// Kinds of extension records.
pub const FAN_EVENT_INFO_TYPE_FID: u8 = 1;
pub const FAN_EVENT_INFO_TYPE_DFID_NAME: u8 = 2;
pub const FAN_EVENT_INFO_TYPE_DFID: u8 = 3;
pub const FAN_EVENT_INFO_TYPE_PIDFD: u8 = 4;
pub const FAN_EVENT_INFO_TYPE_ERROR: u8 = 5;
pub const FAN_EVENT_INFO_TYPE_OLD_NAME: u8 = 6;
pub const FAN_EVENT_INFO_TYPE_NEW_DFID_NAME: u8 = 7;

// Error numbers that the kernel returns and this library tells apart.
pub const EPERM: i32 = 1;
pub const ENOENT: i32 = 2;
pub const EBADF: i32 = 9;
pub const EAGAIN: i32 = 11;
pub const EACCES: i32 = 13;
pub const EINVAL: i32 = 22;
pub const ENOSYS: i32 = 38;
pub const EOVERFLOW: i32 = 75;

/// Size in bytes of the fixed event header.
pub const FAN_EVENT_METADATA_LEN: usize = 24;

/// Size in bytes of an extension record's header.
pub const FAN_EVENT_INFO_HEADER_LEN: usize = 4;

/// Size in bytes of a response record.
pub const FAN_RESPONSE_LEN: usize = 8;

/// The fixed header that starts every event record.
#[derive(Debug, Clone, Copy, PartialEq, Eq, Structural)]
pub struct fanotify_event_metadata {
    pub event_len: u32,
    pub vers: u8,
    pub reserved: u8,
    pub metadata_len: u16,
    pub mask: u64,
    pub fd: i32,
    pub pid: i32,
}

/// The record written back to answer a permission event.
#[derive(Debug, Clone, Copy, PartialEq, Eq, Structural)]
pub struct fanotify_response {
    pub fd: i32,
    pub response: u32,
}

/// The header of an extension record.
#[derive(Debug, Clone, Copy, PartialEq, Eq, Structural)]
pub struct fanotify_event_info_header {
    pub info_type: u8,
    pub pad: u8,
    pub len: u16,
}

/// A file identifier record: filesystem id, then an opaque file handle.
#[derive(Debug, Clone)]
pub struct fanotify_event_info_fid {
    pub hdr: fanotify_event_info_header,
    pub fsid: [i32; 2],
    pub file_handle: Vec<u8>,
}

/// A directory identifier and name record: the bytes after the header.
#[derive(Debug, Clone)]
pub struct fanotify_event_info_name {
    pub hdr: fanotify_event_info_header,
    pub dir_fh: Vec<u8>,
}

/// An error record: the error number and how often it occurred.
#[derive(Debug, Clone, Copy, PartialEq, Eq, Structural)]
pub struct fanotify_event_info_error {
    pub hdr: fanotify_event_info_header,
    pub error: i32,
    pub error_count: u64,
}

/// A pidfd record: a descriptor for the process that caused the event.
#[derive(Debug, Clone, Copy, PartialEq, Eq, Structural)]
pub struct fanotify_event_info_pidfd {
    pub hdr: fanotify_event_info_header,
    pub pidfd: i32,
}

} // verus!
