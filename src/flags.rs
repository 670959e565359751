//! Typed bit sets for the three flag spaces of fanotify: group creation flags,
//! event masks and permission responses.

use vstd::prelude::*;
use crate::linux::{
    FAN_ACCESS, FAN_ACCESS_PERM, FAN_ALLOW, FAN_ATTRIB, FAN_CLASS_CONTENT, FAN_CLASS_NOTIF, FAN_CLASS_PRE_CONTENT, FAN_CLOEXEC, FAN_CLOSE_NOWRITE, FAN_CLOSE_WRITE, FAN_CREATE, FAN_DELETE, FAN_DELETE_SELF, FAN_DENY, FAN_DONT_FOLLOW, FAN_EXCL_UNLINK, FAN_IGNORED_MASK, FAN_ISDIR, FAN_MASK_ADD, FAN_MODIFY, FAN_MOVED_FROM, FAN_MOVED_TO, FAN_MOVE_SELF, FAN_NONBLOCK, FAN_ONLYDIR, FAN_OPEN, FAN_OPEN_PERM, FAN_Q_OVERFLOW, FAN_REPORT_DIR_FID, FAN_REPORT_FID, FAN_REPORT_NAME, FAN_REPORT_TID, FAN_UNLIMITED_MARKS, FAN_UNLIMITED_QUEUE, FAN_UNMOUNT,
};

verus! {

/// Whether `m` holds at least one bit of `cat`.
pub open spec fn any_of(m: u64, cat: u64) -> bool {
    m & cat != 0
}

/// Whether `m` holds every bit of `sub`.
pub open spec fn all_of(m: u64, sub: u64) -> bool {
    m & sub == sub
}

/// Flags of a new notification group: descriptor behaviour, event class,
/// limits and what identifying information each event carries.
#[derive(Debug, Clone, Copy, PartialEq, Eq, Structural, Hash)]
pub struct FanotifyFlags {
    pub bits: u32,
}

impl FanotifyFlags {
    pub const CLOEXEC: u32 = FAN_CLOEXEC;
    pub const NONBLOCK: u32 = FAN_NONBLOCK;
    pub const CLASS_NOTIF: u32 = FAN_CLASS_NOTIF;
    pub const CLASS_CONTENT: u32 = FAN_CLASS_CONTENT;
    pub const CLASS_PRE_CONTENT: u32 = FAN_CLASS_PRE_CONTENT;
    pub const UNLIMITED_QUEUE: u32 = FAN_UNLIMITED_QUEUE;
    pub const UNLIMITED_MARKS: u32 = FAN_UNLIMITED_MARKS;
    pub const REPORT_TID: u32 = FAN_REPORT_TID;
    pub const REPORT_FID: u32 = FAN_REPORT_FID;
    pub const REPORT_DIR_FID: u32 = FAN_REPORT_DIR_FID;
    pub const REPORT_NAME: u32 = FAN_REPORT_NAME;

    /// The flags with exactly the given bits.
    pub fn from_bits_retain(bits: u32) -> (r: FanotifyFlags)
        ensures
            r.bits == bits,
    {
        FanotifyFlags { bits }
    }

    /// The raw bits.
    pub fn bits(&self) -> (r: u32)
        ensures
            r == self.bits,
    {
        self.bits
    }

    /// Whether every bit of `other` is set.
    pub fn contains(&self, other: FanotifyFlags) -> (r: bool)
        ensures
            r == (self.bits & other.bits == other.bits),
    {
        self.bits & other.bits == other.bits
    }
}

impl Default for FanotifyFlags {
    /// A notification-class group whose descriptor closes on exec.
    fn default() -> (r: FanotifyFlags)
        ensures
            r.bits == FAN_CLASS_NOTIF | FAN_CLOEXEC,
    {
        FanotifyFlags { bits: FAN_CLASS_NOTIF | FAN_CLOEXEC }
    }
}

impl core::ops::BitOr for FanotifyFlags {
    type Output = FanotifyFlags;

    fn bitor(self, rhs: FanotifyFlags) -> (r: FanotifyFlags)
        ensures
            r.bits == self.bits | rhs.bits,
    {
        FanotifyFlags { bits: self.bits | rhs.bits }
    }
}

impl vstd::std_specs::ops::BitOrSpecImpl for FanotifyFlags {
    open spec fn obeys_bitor_spec() -> bool {
        true
    }

    open spec fn bitor_req(self, rhs: FanotifyFlags) -> bool {
        true
    }

    open spec fn bitor_spec(self, rhs: FanotifyFlags) -> FanotifyFlags {
        FanotifyFlags { bits: self.bits | rhs.bits }
    }
}

/// The categories of events that a watch asks for, or that an event reports.
#[derive(Debug, Clone, Copy, PartialEq, Eq, Structural, Hash)]
pub struct MaskFlags {
    pub bits: u64,
}

impl MaskFlags {
    pub const ACCESS: u64 = FAN_ACCESS;
    pub const MODIFY: u64 = FAN_MODIFY;
    pub const ATTRIB: u64 = FAN_ATTRIB;
    pub const CLOSE_WRITE: u64 = FAN_CLOSE_WRITE;
    pub const CLOSE_NOWRITE: u64 = FAN_CLOSE_NOWRITE;
    pub const OPEN: u64 = FAN_OPEN;
    pub const MOVED_FROM: u64 = FAN_MOVED_FROM;
    pub const MOVED_TO: u64 = FAN_MOVED_TO;
    pub const CREATE: u64 = FAN_CREATE;
    pub const DELETE: u64 = FAN_DELETE;
    pub const DELETE_SELF: u64 = FAN_DELETE_SELF;
    pub const MOVE_SELF: u64 = FAN_MOVE_SELF;
    pub const OPEN_PERM: u64 = FAN_OPEN_PERM;
    pub const ACCESS_PERM: u64 = FAN_ACCESS_PERM;
    pub const ISDIR: u64 = FAN_ISDIR;
    pub const UNMOUNT: u64 = FAN_UNMOUNT;
    pub const Q_OVERFLOW: u64 = FAN_Q_OVERFLOW;
    pub const IGNORED: u64 = 0x00008000;
    pub const ONLYDIR: u64 = FAN_ONLYDIR;
    pub const DONT_FOLLOW: u64 = FAN_DONT_FOLLOW;
    pub const EXCL_UNLINK: u64 = FAN_EXCL_UNLINK;
    pub const MASK_ADD: u64 = FAN_MASK_ADD;
    pub const IGNORED_MASK: u64 = FAN_IGNORED_MASK;

    pub const ALL_ACCESS_EVENTS: u64 = FAN_ACCESS | FAN_MODIFY | FAN_ATTRIB | FAN_CLOSE_WRITE
        | FAN_CLOSE_NOWRITE | FAN_OPEN;
    pub const ALL_MODIFY_EVENTS: u64 = FAN_MODIFY | FAN_ATTRIB | FAN_CLOSE_WRITE | FAN_CREATE
        | FAN_DELETE | FAN_DELETE_SELF | FAN_MOVE_SELF | FAN_MOVED_FROM | FAN_MOVED_TO;
    pub const ALL_EVENTS: u64 = 0x00000fff | FAN_OPEN_PERM | FAN_ACCESS_PERM | FAN_UNMOUNT;

    /// The bits that queries on access look for.
    pub const ACCESS_CATEGORY: u64 = FAN_ACCESS | FAN_OPEN | FAN_ACCESS_PERM;
    /// The bits of permission requests.
    pub const PERMISSION_CATEGORY: u64 = FAN_OPEN_PERM | FAN_ACCESS_PERM;
    /// Every bit that has a name above; a decoded mask holds no other.
    pub const KNOWN_BITS: u64 = 0x0000ffff | FAN_ISDIR | FAN_ONLYDIR | FAN_DONT_FOLLOW
        | FAN_EXCL_UNLINK | FAN_MASK_ADD | FAN_IGNORED_MASK;

    /// The empty mask.
    pub fn empty() -> (r: MaskFlags)
        ensures
            r.bits == 0,
    {
        MaskFlags { bits: 0 }
    }

    /// The mask with exactly the given bits.
    pub fn from_bits_retain(bits: u64) -> (r: MaskFlags)
        ensures
            r.bits == bits,
    {
        MaskFlags { bits }
    }

    /// The mask with the given bits, if each of them has a name.
    pub fn from_bits(bits: u64) -> (r: Option<MaskFlags>)
        ensures
            r.is_some() <==> bits & !Self::KNOWN_BITS == 0,
            r.is_some() ==> r.unwrap().bits == bits,
    {
        if bits & !Self::KNOWN_BITS == 0 {
            Some(MaskFlags { bits })
        } else {
            None
        }
    }

    /// The raw bits.
    pub fn bits(&self) -> (r: u64)
        ensures
            r == self.bits,
    {
        self.bits
    }

    /// Whether no bit is set.
    pub fn is_empty(&self) -> (r: bool)
        ensures
            r == (self.bits == 0),
    {
        self.bits == 0
    }

    /// Whether every bit of `other` is set.
    pub fn contains(&self, other: MaskFlags) -> (r: bool)
        ensures
            r == all_of(self.bits, other.bits),
    {
        self.bits & other.bits == other.bits
    }

    /// Whether at least one bit of `other` is set.
    pub fn intersects(&self, other: MaskFlags) -> (r: bool)
        ensures
            r == any_of(self.bits, other.bits),
    {
        self.bits & other.bits != 0
    }

    /// Whether the mask holds any access event: a read, an open, or a
    /// request for permission to read.
    pub fn has_access_events(&self) -> (r: bool)
        ensures
            r == any_of(self.bits, Self::ACCESS_CATEGORY),
    {
        self.intersects(MaskFlags { bits: Self::ACCESS_CATEGORY })
    }

    /// Whether the mask holds any event that changes the file system.
    pub fn has_modify_events(&self) -> (r: bool)
        ensures
            r == any_of(self.bits, Self::ALL_MODIFY_EVENTS),
    {
        self.intersects(MaskFlags { bits: Self::ALL_MODIFY_EVENTS })
    }

    /// Whether the mask holds a permission request.
    pub fn has_permission_events(&self) -> (r: bool)
        ensures
            r == any_of(self.bits, Self::PERMISSION_CATEGORY),
    {
        self.intersects(MaskFlags { bits: Self::PERMISSION_CATEGORY })
    }

    /// Whether the watch is restricted to directories.
    pub fn is_directory_only(&self) -> (r: bool)
        ensures
            r == any_of(self.bits, Self::ONLYDIR),
    {
        self.intersects(MaskFlags { bits: Self::ONLYDIR })
    }

    /// Whether symbolic links are followed when the watch is placed.
    pub fn follows_symlinks(&self) -> (r: bool)
        ensures
            r == !any_of(self.bits, Self::DONT_FOLLOW),
    {
        !self.intersects(MaskFlags { bits: Self::DONT_FOLLOW })
    }
}

impl Default for MaskFlags {
    /// Every event.
    fn default() -> (r: MaskFlags)
        ensures
            r.bits == MaskFlags::ALL_EVENTS,
    {
        MaskFlags { bits: Self::ALL_EVENTS }
    }
}

impl core::ops::BitOr for MaskFlags {
    type Output = MaskFlags;

    fn bitor(self, rhs: MaskFlags) -> (r: MaskFlags)
        ensures
            r.bits == self.bits | rhs.bits,
    {
        MaskFlags { bits: self.bits | rhs.bits }
    }
}

impl vstd::std_specs::ops::BitOrSpecImpl for MaskFlags {
    open spec fn obeys_bitor_spec() -> bool {
        true
    }

    open spec fn bitor_req(self, rhs: MaskFlags) -> bool {
        true
    }

    open spec fn bitor_spec(self, rhs: MaskFlags) -> MaskFlags {
        MaskFlags { bits: self.bits | rhs.bits }
    }
}

/// The answer to a permission event.
#[derive(Debug, Clone, Copy, PartialEq, Eq, Structural, Hash)]
pub struct EventFlags {
    pub bits: u32,
}

impl EventFlags {
    pub const ALLOW: u32 = FAN_ALLOW;
    pub const DENY: u32 = FAN_DENY;

    /// Let the operation go ahead.
    pub fn allow() -> (r: EventFlags)
        ensures
            r.bits == FAN_ALLOW,
    {
        EventFlags { bits: FAN_ALLOW }
    }

    /// Refuse the operation.
    pub fn deny() -> (r: EventFlags)
        ensures
            r.bits == FAN_DENY,
    {
        EventFlags { bits: FAN_DENY }
    }

    /// The response with exactly the given bits.
    pub fn from_bits_retain(bits: u32) -> (r: EventFlags)
        ensures
            r.bits == bits,
    {
        EventFlags { bits }
    }

    /// The raw bits.
    pub fn bits(&self) -> (r: u32)
        ensures
            r == self.bits,
    {
        self.bits
    }
}

impl Default for EventFlags {
    /// Allow.
    fn default() -> (r: EventFlags)
        ensures
            r.bits == FAN_ALLOW,
    {
        EventFlags { bits: FAN_ALLOW }
    }
}

} // verus!
