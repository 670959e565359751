//! The session core: what to ask of the kernel to change the watch set, how
//! to take its answer, and what to write back for a permission event.
//!
//! The kernel calls themselves are made by the caller, which hands their
//! results back here.

use vstd::prelude::*;
use vstd::string::StringSliceAdditionalSpecFns;
use crate::error::{errno_error, FanotifyError, Result};
use crate::event::{fd_of, Event, PERMISSION_CATEGORY};
use crate::flags::{any_of, EventFlags, MaskFlags};
use crate::linux::{
    fanotify_response, AT_FDCWD, FAN_DONT_FOLLOW, FAN_MARK_ADD, FAN_MARK_DONT_FOLLOW,
    FAN_MARK_ONLYDIR, FAN_MARK_REMOVE, FAN_ONLYDIR,
};
use crate::watch::WatchTable;

verus! {

/// Size of the read buffer of a new session.
pub const DEFAULT_BUFFER_SIZE: usize = 4096;

/// The two changes of a watch.
#[derive(Debug, Clone, Copy, PartialEq, Eq, Structural)]
pub enum MarkOp {
    Add,
    Remove,
}

/// The arguments of one mark call, and what to record once it succeeds.
#[derive(Debug, Clone)]
pub struct MarkRequest {
    /// Whether the watch is placed or taken away.
    pub op: MarkOp,
    /// The operation and its modifiers, as the kernel takes them.
    pub flags: u32,
    /// The event bits handed to the kernel.
    pub mask: u64,
    /// Where a relative path starts.
    pub dirfd: i32,
    /// The path.
    pub path: String,
    /// The mask the watch table records for the path once the call succeeds.
    pub watch_mask: MaskFlags,
}

/// Whether `path` can be handed to the kernel: none of its bytes is zero.
pub open spec fn path_ok(path: &str) -> bool {
    forall|i: int| 0 <= i < path.spec_bytes().len() ==> path.spec_bytes()[i] != 0
}

/// The mark flags for operation `op` on a watch with mask `m`: the
/// structural modifiers of the mask become flags of the call.
pub open spec fn mark_flags(op: MarkOp, m: u64) -> u32 {
    (if op == MarkOp::Add {
        FAN_MARK_ADD
    } else {
        FAN_MARK_REMOVE
    }) | (if any_of(m, FAN_DONT_FOLLOW) {
        FAN_MARK_DONT_FOLLOW
    } else {
        0
    }) | (if any_of(m, FAN_ONLYDIR) {
        FAN_MARK_ONLYDIR
    } else {
        0
    })
}

/// The event bits of a watch mask that the kernel takes as its mask.
pub open spec fn kernel_mask(m: u64) -> u64 {
    m & !(FAN_DONT_FOLLOW | FAN_ONLYDIR)
}

/// The request for `op` on `path` with watch mask `m`.
pub open spec fn request_for(r: MarkRequest, op: MarkOp, path: Seq<char>, m: MaskFlags) -> bool {
    &&& r.op == op
    &&& r.flags == mark_flags(op, m.bits)
    &&& r.mask == kernel_mask(m.bits)
    &&& r.dirfd == AT_FDCWD
    &&& r.path@ == path
    &&& r.watch_mask == m
}

/// The watch set after `req` succeeded on `w`.
pub open spec fn after_mark(w: Map<Seq<char>, MaskFlags>, req: MarkRequest) -> Map<
    Seq<char>,
    MaskFlags,
> {
    match req.op {
        MarkOp::Add => w.insert(req.path@, req.watch_mask),
        MarkOp::Remove => w.remove(req.path@),
    }
}

/// Whether a permission response can be built for `e`.
pub open spec fn can_respond(e: Event) -> bool {
    any_of(e.info.mask.bits, PERMISSION_CATEGORY) && e.info.fd is Some
}

/// Once a watch has been placed on a path, the path is watched, with the
/// mask asked for; once it has been taken off, the path is not watched; and
/// taking it off a path that was not watched leaves the watch set as it was.
pub proof fn lemma_watch_set(
    w: Map<Seq<char>, MaskFlags>,
    add: MarkRequest,
    remove: MarkRequest,
    path: Seq<char>,
    mask: MaskFlags,
    old_mask: MaskFlags,
)
    requires
        request_for(add, MarkOp::Add, path, mask),
        request_for(remove, MarkOp::Remove, path, old_mask),
    ensures
        after_mark(w, add).contains_key(path),
        after_mark(w, add)[path] == mask,
        !after_mark(after_mark(w, add), remove).contains_key(path),
        !after_mark(w, remove).contains_key(path),
        !w.contains_key(path) ==> after_mark(w, remove) == w,
{
    if !w.contains_key(path) {
        assert(w.remove(path) =~= w);
    }
}

/// Whether `path`'s bytes hold no zero.
fn check_path(path: &str) -> (r: bool)
    ensures
        r == path_ok(path),
{
    let b = path.as_bytes();
    let mut i: usize = 0;
    while i < b.len()
        invariant
            i <= b@.len(),
            b@ == path.spec_bytes(),
            forall|j: int| 0 <= j < i ==> b@[j] != 0,
        decreases b@.len() - i,
    {
        if b[i] == 0 {
            return false;
        }
        i = i + 1;
    }
    true
}

/// Builds the request for `op` on `path` with watch mask `mask`.
fn make_request(op: MarkOp, path: &str, mask: MaskFlags) -> (r: Result<MarkRequest>)
    ensures
        r is Ok <==> path_ok(path),
        r matches Ok(req) ==> request_for(req, op, path@, mask),
        r matches Err(e) ==> e matches FanotifyError::InvalidPath { path: p } && p@ == path@,
{
    if !check_path(path) {
        return Err(FanotifyError::invalid_path(path));
    }
    let base = match op {
        MarkOp::Add => FAN_MARK_ADD,
        MarkOp::Remove => FAN_MARK_REMOVE,
    };
    let nofollow = if !mask.follows_symlinks() {
        FAN_MARK_DONT_FOLLOW
    } else {
        0
    };
    let onlydir = if mask.is_directory_only() {
        FAN_MARK_ONLYDIR
    } else {
        0
    };
    Ok(
        MarkRequest {
            op,
            flags: base | nofollow | onlydir,
            mask: mask.bits & !(FAN_DONT_FOLLOW | FAN_ONLYDIR),
            dirfd: AT_FDCWD,
            path: path.to_owned(),
            watch_mask: mask,
        },
    )
}

/// The state of one notification group: its watch set and the size of its
/// read buffer.
pub struct Session {
    watched: WatchTable,
    buffer_size: usize,
}

impl Session {
    /// The paths watched, each with its mask.
    pub closed spec fn watches(&self) -> Map<Seq<char>, MaskFlags> {
        self.watched@
    }

    /// The size of the read buffer.
    pub closed spec fn spec_buffer_size(&self) -> usize {
        self.buffer_size
    }

    /// The session's invariant.
    pub closed spec fn wf(&self) -> bool {
        self.watched.wf()
    }

    /// A session that watches nothing, with a buffer of the default size.
    pub fn new() -> (r: Session)
        ensures
            r.wf(),
            r.watches() == Map::<Seq<char>, MaskFlags>::empty(),
            r.spec_buffer_size() == DEFAULT_BUFFER_SIZE,
    {
        Session { watched: WatchTable::new(), buffer_size: DEFAULT_BUFFER_SIZE }
    }

    /// The request that places a watch with `mask` on `path`; an error when the
    /// path cannot be handed to the kernel.
    pub fn add_watch_request(&self, path: &str, mask: MaskFlags) -> (r: Result<MarkRequest>)
        ensures
            r is Ok <==> path_ok(path),
            r matches Ok(req) ==> request_for(req, MarkOp::Add, path@, mask),
            r matches Err(e) ==> e matches FanotifyError::InvalidPath { path: p } && p@ == path@,
    {
        make_request(MarkOp::Add, path, mask)
    }

    /// The request that takes the watch off `path`, with the mask it was
    /// placed with, or an empty one when the path is not watched.
    pub fn remove_watch_request(&self, path: &str) -> (r: Result<MarkRequest>)
        requires
            self.wf(),
        ensures
            r is Ok <==> path_ok(path),
            r matches Ok(req) ==> request_for(
                req,
                MarkOp::Remove,
                path@,
                if self.watches().contains_key(path@) {
                    self.watches()[path@]
                } else {
                    MaskFlags { bits: 0 }
                },
            ),
            r matches Err(e) ==> e matches FanotifyError::InvalidPath { path: p } && p@ == path@,
    {
        let key = path.to_owned();
        let mask = match self.watched.get(&key) {
            Some(m) => m,
            None => MaskFlags::empty(),
        };
        make_request(MarkOp::Remove, path, mask)
    }

    /// Takes the kernel's answer to `req`: the return value `ret` of the call
    /// and, when it failed, the error number. The watch set changes only
    /// when the call succeeded.
    pub fn complete_mark(&mut self, req: &MarkRequest, ret: i32, errno: i32) -> (r: Result<()>)
        requires
            old(self).wf(),
        ensures
            final(self).wf(),
            final(self).spec_buffer_size() == old(self).spec_buffer_size(),
            ret >= 0 ==> r is Ok && final(self).watches() == after_mark(old(self).watches(), *req),
            ret < 0 ==> (r matches Err(e) && errno_error("fanotify_mark", errno, e)),
            ret < 0 ==> final(self).watches() == old(self).watches(),
    {
        if ret < 0 {
            return Err(FanotifyError::from_errno("fanotify_mark", errno));
        }
        match req.op {
            MarkOp::Add => self.watched.insert(req.path.clone(), req.watch_mask),
            MarkOp::Remove => self.watched.remove(&req.path),
        }
        Ok(())
    }

    /// Whether `path` is watched.
    pub fn is_watched(&self, path: &str) -> (r: bool)
        requires
            self.wf(),
        ensures
            r == self.watches().contains_key(path@),
    {
        let key = path.to_owned();
        self.watched.contains(&key)
    }

    /// The mask `path` is watched with, if it is.
    pub fn get_mask(&self, path: &str) -> (r: Option<MaskFlags>)
        requires
            self.wf(),
        ensures
            r == (if self.watches().contains_key(path@) {
                Some(self.watches()[path@])
            } else {
                None
            }),
    {
        let key = path.to_owned();
        self.watched.get(&key)
    }

    /// The watched paths with their masks, in no particular order.
    pub fn watched_paths(&self) -> (r: Vec<(String, MaskFlags)>)
        requires
            self.wf(),
        ensures
            r@.len() == self.watches().len(),
            forall|i: int|
                0 <= i < r@.len() ==> #[trigger] self.watches().contains_key(r@[i].0@)
                    && self.watches()[r@[i].0@] == r@[i].1,
            forall|k: Seq<char>|
                #[trigger] self.watches().contains_key(k) ==> exists|i: int|
                    0 <= i < r@.len() && #[trigger] r@[i].0@ == k,
    {
        self.watched.entries()
    }

    /// Sets the size of the read buffer.
    pub fn set_buffer_size(&mut self, size: usize)
        requires
            old(self).wf(),
        ensures
            final(self).wf(),
            final(self).spec_buffer_size() == size,
            final(self).watches() == old(self).watches(),
    {
        self.buffer_size = size;
    }

    /// The size of the read buffer.
    pub fn buffer_size(&self) -> (r: usize)
        ensures
            r == self.spec_buffer_size(),
    {
        self.buffer_size
    }

    /// The record that answers the permission event `event` with `response`.
    ///
    /// Each permission event must be answered exactly once: the kernel keeps
    /// the file operation blocked until then, and takes the descriptor back
    /// with the answer. Neither is checked here.
    pub fn response_for(event: &Event, response: EventFlags) -> (r: Result<fanotify_response>)
        ensures
            r is Ok <==> can_respond(*event),
            r matches Ok(rec) ==> rec == (fanotify_response {
                fd: event.info.fd->Some_0,
                response: response.bits,
            }),
            r matches Err(e) ==> e is InvalidEventData,
    {
        if !event.is_permission() {
            return Err(FanotifyError::invalid_event_data("Event is not a permission event"));
        }
        match event.info.fd {
            Some(fd) => Ok(fanotify_response { fd, response: response.bits }),
            None => Err(FanotifyError::invalid_event_data("Permission event has no file descriptor")),
        }
    }
}

/// The outcome of a system call that returned `ret` and, when that is
/// negative, set `errno`.
pub fn syscall_result(syscall: &'static str, ret: i64, errno: i32) -> (r: Result<()>)
    ensures
        ret >= 0 ==> r is Ok,
        ret < 0 ==> (r matches Err(e) && errno_error(syscall, errno, e)),
{
    if ret < 0 {
        Err(FanotifyError::from_errno(syscall, errno))
    } else {
        Ok(())
    }
}

} // verus!
