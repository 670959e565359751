//! Decoded events, and the decoder that turns the kernel's records into them.

use vstd::prelude::*;
use crate::error::{FanotifyError, Result};
use crate::flags::{any_of, MaskFlags};
use crate::linux::{
    FAN_ACCESS, FAN_ACCESS_PERM, FAN_CLOSE_NOWRITE, FAN_CLOSE_WRITE, FAN_CREATE, FAN_DELETE,
    FAN_DELETE_SELF, FAN_EVENT_METADATA_LEN, FAN_ISDIR, FAN_MODIFY, FAN_MOVED_FROM, FAN_MOVED_TO,
    FAN_MOVE_SELF, FAN_OPEN, FAN_OPEN_PERM, FAN_Q_OVERFLOW,
};
use crate::wire::{copy_range, header_at, lemma_header_prefix, lemma_header_suffix, read_header};

verus! {

/// Information about a fanotify event.
#[derive(Debug, Clone)]
pub struct EventInfo {
    /// The descriptor of the file that the event is about, if the kernel sent one.
    pub fd: Option<i32>,
    /// The path of that file, once it has been resolved.
    pub path: Option<String>,
    /// What happened.
    pub mask: MaskFlags,
    /// The process that caused the event.
    pub pid: u32,
    /// Whether the event is about a directory.
    pub is_directory: bool,
}

/// A fanotify event.
#[derive(Debug, Clone)]
pub struct Event {
    /// The decoded fields.
    pub info: EventInfo,
    /// The record the event was decoded from, extension records included.
    pub raw_data: Vec<u8>,
}

/// Why a record cannot be decoded.
#[derive(Debug, Clone, Copy, PartialEq, Eq, Structural)]
pub enum RecordFault {
    /// Fewer bytes remain than a header takes.
    TooShort,
    /// The declared lengths do not fit the header or the bytes that remain.
    BadLength,
    /// The mask holds a bit that has no name.
    UnknownMask,
}

/// What is wrong with the record at `off`, if anything.
pub open spec fn record_fault(b: Seq<u8>, off: int) -> Option<RecordFault> {
    if b.len() - off < FAN_EVENT_METADATA_LEN {
        Some(RecordFault::TooShort)
    } else if header_at(b, off).event_len < FAN_EVENT_METADATA_LEN || header_at(b, off).event_len
        > b.len() - off || header_at(b, off).metadata_len < FAN_EVENT_METADATA_LEN || header_at(
        b,
        off,
    ).metadata_len > header_at(b, off).event_len {
        Some(RecordFault::BadLength)
    } else if header_at(b, off).mask & !MaskFlags::KNOWN_BITS != 0 {
        Some(RecordFault::UnknownMask)
    } else {
        None
    }
}

/// The offsets of the records of `b` from `off` on, in the order they stand,
/// or the first fault met.
pub open spec fn record_offsets(b: Seq<u8>, off: int) -> core::result::Result<
    Seq<int>,
    RecordFault,
>
    decreases b.len() - off,
{
    if off < 0 || off >= b.len() {
        Ok(seq![])
    } else if b.len() - off < FAN_EVENT_METADATA_LEN {
        Err(RecordFault::TooShort)
    } else if header_at(b, off).event_len < FAN_EVENT_METADATA_LEN {
        Err(RecordFault::BadLength)
    } else {
        match record_fault(b, off) {
            Some(f) => Err(f),
            None => match record_offsets(b, off + header_at(b, off).event_len) {
                Ok(s) => Ok(seq![off] + s),
                Err(f) => Err(f),
            },
        }
    }
}

/// `offs` put before the offsets of `r`, or the fault of `r`.
pub open spec fn after(offs: Seq<int>, r: core::result::Result<Seq<int>, RecordFault>) -> core::result::Result<
    Seq<int>,
    RecordFault,
> {
    match r {
        Ok(s) => Ok(offs + s),
        Err(f) => Err(f),
    }
}

/// The error that reports a fault.
pub open spec fn fault_error(f: RecordFault, e: FanotifyError) -> bool {
    match f {
        RecordFault::UnknownMask => e is InvalidMask,
        _ => e is InvalidEventData,
    }
}

/// The descriptor field of a header, as an option.
pub open spec fn fd_of(fd: i32) -> Option<i32> {
    if fd >= 0 {
        Some(fd)
    } else {
        None
    }
}

/// `e` is what the record at `off` of `b` decodes to.
pub open spec fn decoded_as(e: Event, b: Seq<u8>, off: int) -> bool {
    let h = header_at(b, off);
    &&& e.info.mask.bits == h.mask
    &&& e.info.fd == fd_of(h.fd)
    &&& e.info.pid == h.pid as u32
    &&& e.info.is_directory == any_of(h.mask, FAN_ISDIR)
    &&& e.info.path is None
    &&& e.raw_data@ == b.subrange(off, off + h.event_len)
}

/// A buffer cut off inside a header is reported as too short, never read
/// past its end.
pub proof fn lemma_truncated_header(b: Seq<u8>)
    requires
        0 < b.len() < FAN_EVENT_METADATA_LEN,
    ensures
        record_offsets(b, 0) == core::result::Result::<Seq<int>, RecordFault>::Err(
            RecordFault::TooShort,
        ),
        record_fault(b, 0) == Some(RecordFault::TooShort),
{
}

/// Two well-formed records written back to back decode as two records, in
/// that order, each with its own header.
pub proof fn lemma_two_records(r1: Seq<u8>, r2: Seq<u8>)
    requires
        record_fault(r1, 0) is None,
        header_at(r1, 0).event_len == r1.len(),
        record_fault(r2, 0) is None,
        header_at(r2, 0).event_len == r2.len(),
    ensures
        record_offsets(r1 + r2, 0) == core::result::Result::<Seq<int>, RecordFault>::Ok(
            seq![0, r1.len() as int],
        ),
        header_at(r1 + r2, 0) == header_at(r1, 0),
        header_at(r1 + r2, r1.len() as int) == header_at(r2, 0),
{
    let b = r1 + r2;
    let n1 = r1.len() as int;
    lemma_header_prefix(r1, r2, 0);
    lemma_header_suffix(r1, r2, 0);
    assert(n1 + 0 == n1);
    assert(record_fault(b, n1) is None);
    assert(record_offsets(b, n1 + r2.len()) == core::result::Result::<Seq<int>, RecordFault>::Ok(
        seq![],
    ));
    assert(record_offsets(b, n1) == core::result::Result::<Seq<int>, RecordFault>::Ok(
        seq![n1] + seq![],
    ));
    assert(record_fault(b, 0) is None);
    assert(seq![0int] + (seq![n1] + seq![]) =~= seq![0, n1]);
}

/// Decodes the record at `off`.
fn decode_record(data: &[u8], off: usize) -> (r: Result<Event>)
    requires
        off < data@.len(),
    ensures
        record_fault(data@, off as int) is None <==> r is Ok,
        r matches Ok(e) ==> decoded_as(e, data@, off as int),
        r matches Err(e) ==> fault_error(record_fault(data@, off as int).unwrap(), e),
{
    if data.len() - off < FAN_EVENT_METADATA_LEN {
        return Err(FanotifyError::invalid_event_data("Data too short"));
    }
    let h = read_header(data, off);
    if (h.event_len as usize) < FAN_EVENT_METADATA_LEN || (h.event_len as usize) > data.len() - off
        || (h.metadata_len as usize) < FAN_EVENT_METADATA_LEN || h.metadata_len as u32
        > h.event_len {
        return Err(FanotifyError::invalid_event_data("Invalid event length"));
    }
    let mask = match MaskFlags::from_bits(h.mask) {
        Some(m) => m,
        None => {
            return Err(FanotifyError::invalid_mask("Invalid mask bits"));
        },
    };
    let info = EventInfo {
        fd: if h.fd >= 0 {
            Some(h.fd)
        } else {
            None
        },
        path: None,
        mask,
        pid: h.pid as u32,
        is_directory: mask.intersects(MaskFlags { bits: MaskFlags::ISDIR }),
    };
    let raw_data = copy_range(data, off, off + h.event_len as usize);
    Ok(Event { info, raw_data })
}

/// Decodes every record of a buffer, in the order the kernel wrote them.
///
/// Stops at the first record that is cut short, whose lengths do not fit, or
/// whose mask holds an unnamed bit, and reports it.
pub fn decode_events(data: &[u8]) -> (r: Result<Vec<Event>>)
    ensures
        record_offsets(data@, 0) is Ok <==> r is Ok,
        r matches Ok(evs) ==> evs@.len() == record_offsets(data@, 0)->Ok_0.len() && forall|i: int|
            0 <= i < evs@.len() ==> decoded_as(
                #[trigger] evs@[i],
                data@,
                record_offsets(data@, 0)->Ok_0[i],
            ),
        r matches Err(e) ==> fault_error(record_offsets(data@, 0)->Err_0, e),
{
    let mut events: Vec<Event> = Vec::new();
    let mut off: usize = 0;
    let ghost mut offs: Seq<int> = seq![];
    while off < data.len()
        invariant
            off <= data@.len(),
            events@.len() == offs.len(),
            forall|i: int| 0 <= i < offs.len() ==> decoded_as(#[trigger] events@[i], data@, offs[i]),
            record_offsets(data@, 0) == after(offs, record_offsets(data@, off as int)),
        decreases data@.len() - off,
    {
        let e = match decode_record(data, off) {
            Ok(e) => e,
            Err(err) => {
                return Err(err);
            },
        };
        let len = e.raw_data.len();
        proof {
            let rest = record_offsets(data@, off + len);
            assert(record_offsets(data@, off as int) == after(seq![off as int], rest));
            match rest {
                Ok(s) => {
                    assert(offs + (seq![off as int] + s) =~= offs.push(off as int) + s);
                },
                Err(f) => {},
            }
            offs = offs.push(off as int);
        }
        events.push(e);
        off = off + len;
    }
    proof {
        assert(offs + seq![] =~= offs);
    }
    Ok(events)
}

/// The bits that make an event a close.
pub const CLOSE_CATEGORY: u64 = FAN_CLOSE_WRITE | FAN_CLOSE_NOWRITE;
/// The bits that make an event a delete.
pub const DELETE_CATEGORY: u64 = FAN_DELETE | FAN_DELETE_SELF;
/// The bits that make an event a move.
pub const MOVE_CATEGORY: u64 = FAN_MOVED_FROM | FAN_MOVED_TO | FAN_MOVE_SELF;
/// The bits that make an event a permission request.
pub const PERMISSION_CATEGORY: u64 = FAN_OPEN_PERM | FAN_ACCESS_PERM;

/// `w` after `p` when `c` holds.
pub open spec fn add_if(p: Seq<Seq<char>>, c: bool, w: Seq<char>) -> Seq<Seq<char>> {
    if c {
        p.push(w)
    } else {
        p
    }
}

/// The names of the categories that a mask belongs to, in a fixed order.
pub open spec fn category_names(m: u64) -> Seq<Seq<char>> {
    add_if(
        add_if(
            add_if(
                add_if(
                    add_if(
                        add_if(
                            add_if(
                                add_if(
                                    add_if(seq![], any_of(m, FAN_ACCESS), "access"@),
                                    any_of(m, FAN_MODIFY),
                                    "modify"@,
                                ),
                                any_of(m, FAN_OPEN),
                                "open"@,
                            ),
                            any_of(m, CLOSE_CATEGORY),
                            "close"@,
                        ),
                        any_of(m, FAN_CREATE),
                        "create"@,
                    ),
                    any_of(m, DELETE_CATEGORY),
                    "delete"@,
                ),
                any_of(m, MOVE_CATEGORY),
                "move"@,
            ),
            any_of(m, PERMISSION_CATEGORY),
            "permission"@,
        ),
        any_of(m, FAN_Q_OVERFLOW),
        "overflow"@,
    )
}

/// The words of `parts` with ", " between them.
pub open spec fn join(parts: Seq<Seq<char>>) -> Seq<char>
    decreases parts.len(),
{
    if parts.len() == 0 {
        seq![]
    } else if parts.len() == 1 {
        parts[0]
    } else {
        join(parts.drop_last()) + ", "@ + parts.last()
    }
}

/// The description of an event with mask `m`.
pub open spec fn description_of(m: u64) -> Seq<char> {
    if category_names(m).len() == 0 {
        "unknown event"@
    } else {
        join(category_names(m)) + " event"@
    }
}

/// The single category name of an event with mask `m`: the first that applies.
pub open spec fn event_type_of(m: u64) -> Seq<char> {
    if any_of(m, FAN_ACCESS) {
        "ACCESS"@
    } else if any_of(m, FAN_MODIFY) {
        "MODIFY"@
    } else if any_of(m, FAN_OPEN) {
        "OPEN"@
    } else if any_of(m, CLOSE_CATEGORY) {
        "CLOSE"@
    } else if any_of(m, FAN_CREATE) {
        "CREATE"@
    } else if any_of(m, DELETE_CATEGORY) {
        "DELETE"@
    } else if any_of(m, MOVE_CATEGORY) {
        "MOVE"@
    } else if any_of(m, PERMISSION_CATEGORY) {
        "PERMISSION"@
    } else if any_of(m, FAN_Q_OVERFLOW) {
        "OVERFLOW"@
    } else {
        "UNKNOWN"@
    }
}

/// Appends `word` to the joined `parts`.
fn push_name(s: &mut String, parts: Ghost<Seq<Seq<char>>>, first: bool, word: &str)
    requires
        old(s)@ == join(parts@),
        first == (parts@.len() == 0),
    ensures
        final(s)@ == join(parts@.push(word@)),
{
    let ghost q = parts@.push(word@);
    assert(q.drop_last() =~= parts@);
    if !first {
        s.append(", ");
    }
    s.append(word);
    assert(parts@.len() == 0 ==> final(s)@ =~= word@);
}

/// Classification is a check of the mask's bits, one category at a time, and
/// a mask may fall in several: a delete of a directory is both.
pub proof fn lemma_classification(m: u64)
    ensures
        any_of(m, FAN_ACCESS) == (m & FAN_ACCESS != 0),
        any_of(m, CLOSE_CATEGORY) == (m & FAN_CLOSE_WRITE != 0 || m & FAN_CLOSE_NOWRITE != 0),
        any_of(m, DELETE_CATEGORY) == (m & FAN_DELETE != 0 || m & FAN_DELETE_SELF != 0),
        any_of(m, MOVE_CATEGORY) == (m & FAN_MOVED_FROM != 0 || m & FAN_MOVED_TO != 0 || m
            & FAN_MOVE_SELF != 0),
        any_of(m, PERMISSION_CATEGORY) == (m & FAN_OPEN_PERM != 0 || m & FAN_ACCESS_PERM != 0),
        any_of(m, MaskFlags::ACCESS_CATEGORY) == (m & FAN_ACCESS != 0 || m & FAN_OPEN != 0 || m
            & FAN_ACCESS_PERM != 0),
        m & (FAN_DELETE | FAN_ISDIR) == FAN_DELETE | FAN_ISDIR ==> any_of(m, DELETE_CATEGORY)
            && any_of(m, FAN_ISDIR),
{
    assert(0x8u64 | 0x10u64 == 0x18u64) by (bit_vector);
    assert(0x200u64 | 0x400u64 == 0x600u64) by (bit_vector);
    assert(0x40u64 | 0x80u64 | 0x800u64 == 0x8c0u64) by (bit_vector);
    assert(0x1000u64 | 0x2000u64 == 0x3000u64) by (bit_vector);
    assert(0x1u64 | 0x20u64 | 0x2000u64 == 0x2021u64) by (bit_vector);
    assert(0x200u64 | 0x40000000u64 == 0x40000200u64) by (bit_vector);
    assert((m & 0x18u64 != 0) == (m & 0x8u64 != 0 || m & 0x10u64 != 0)) by (bit_vector);
    assert((m & 0x600u64 != 0) == (m & 0x200u64 != 0 || m & 0x400u64 != 0)) by (bit_vector);
    assert((m & 0x8c0u64 != 0) == (m & 0x40u64 != 0 || m & 0x80u64 != 0 || m & 0x800u64 != 0))
        by (bit_vector);
    assert((m & 0x3000u64 != 0) == (m & 0x1000u64 != 0 || m & 0x2000u64 != 0)) by (bit_vector);
    assert((m & 0x2021u64 != 0) == (m & 0x1u64 != 0 || m & 0x20u64 != 0 || m & 0x2000u64 != 0))
        by (bit_vector);
    assert(m & 0x40000200u64 == 0x40000200u64 ==> m & 0x600u64 != 0 && m & 0x40000000u64 != 0)
        by (bit_vector);
}

impl Event {
    /// Whether the file was read.
    pub fn is_access(&self) -> (r: bool)
        ensures
            r == any_of(self.info.mask.bits, FAN_ACCESS),
    {
        self.info.mask.intersects(MaskFlags { bits: FAN_ACCESS })
    }

    /// Whether the file was written.
    pub fn is_modify(&self) -> (r: bool)
        ensures
            r == any_of(self.info.mask.bits, FAN_MODIFY),
    {
        self.info.mask.intersects(MaskFlags { bits: FAN_MODIFY })
    }

    /// Whether the file was opened.
    pub fn is_open(&self) -> (r: bool)
        ensures
            r == any_of(self.info.mask.bits, FAN_OPEN),
    {
        self.info.mask.intersects(MaskFlags { bits: FAN_OPEN })
    }

    /// Whether the file was closed, after writing or not.
    pub fn is_close(&self) -> (r: bool)
        ensures
            r == any_of(self.info.mask.bits, CLOSE_CATEGORY),
    {
        self.info.mask.intersects(MaskFlags { bits: CLOSE_CATEGORY })
    }

    /// Whether an entry was created.
    pub fn is_create(&self) -> (r: bool)
        ensures
            r == any_of(self.info.mask.bits, FAN_CREATE),
    {
        self.info.mask.intersects(MaskFlags { bits: FAN_CREATE })
    }

    /// Whether an entry, or the watched object itself, was deleted.
    pub fn is_delete(&self) -> (r: bool)
        ensures
            r == any_of(self.info.mask.bits, DELETE_CATEGORY),
    {
        self.info.mask.intersects(MaskFlags { bits: DELETE_CATEGORY })
    }

    /// Whether an entry, or the watched object itself, was moved.
    pub fn is_move(&self) -> (r: bool)
        ensures
            r == any_of(self.info.mask.bits, MOVE_CATEGORY),
    {
        self.info.mask.intersects(MaskFlags { bits: MOVE_CATEGORY })
    }

    /// Whether the event asks for permission, and so awaits a response.
    pub fn is_permission(&self) -> (r: bool)
        ensures
            r == any_of(self.info.mask.bits, PERMISSION_CATEGORY),
    {
        self.info.mask.intersects(MaskFlags { bits: PERMISSION_CATEGORY })
    }

    /// Whether the event reports that the kernel's queue overflowed and
    /// events were dropped.
    pub fn is_overflow(&self) -> (r: bool)
        ensures
            r == any_of(self.info.mask.bits, FAN_Q_OVERFLOW),
    {
        self.info.mask.intersects(MaskFlags { bits: FAN_Q_OVERFLOW })
    }

    /// A description naming every category that the event falls in.
    pub fn description(&self) -> (r: String)
        ensures
            r@ == description_of(self.info.mask.bits),
    {
        let m = self.info.mask.bits;
        let mut s = String::new();
        let mut named = false;
        let ghost mut parts: Seq<Seq<char>> = seq![];
        assert(s@ =~= join(parts));
        if self.is_access() {
            push_name(&mut s, Ghost(parts), !named, "access");
            named = true;
            proof {
                parts = parts.push("access"@);
            }
        }
        if self.is_modify() {
            push_name(&mut s, Ghost(parts), !named, "modify");
            named = true;
            proof {
                parts = parts.push("modify"@);
            }
        }
        if self.is_open() {
            push_name(&mut s, Ghost(parts), !named, "open");
            named = true;
            proof {
                parts = parts.push("open"@);
            }
        }
        if self.is_close() {
            push_name(&mut s, Ghost(parts), !named, "close");
            named = true;
            proof {
                parts = parts.push("close"@);
            }
        }
        if self.is_create() {
            push_name(&mut s, Ghost(parts), !named, "create");
            named = true;
            proof {
                parts = parts.push("create"@);
            }
        }
        if self.is_delete() {
            push_name(&mut s, Ghost(parts), !named, "delete");
            named = true;
            proof {
                parts = parts.push("delete"@);
            }
        }
        if self.is_move() {
            push_name(&mut s, Ghost(parts), !named, "move");
            named = true;
            proof {
                parts = parts.push("move"@);
            }
        }
        if self.is_permission() {
            push_name(&mut s, Ghost(parts), !named, "permission");
            named = true;
            proof {
                parts = parts.push("permission"@);
            }
        }
        if self.is_overflow() {
            push_name(&mut s, Ghost(parts), !named, "overflow");
            named = true;
            proof {
                parts = parts.push("overflow"@);
            }
        }
        assert(parts == category_names(m));
        if !named {
            return String::from_str("unknown event");
        }
        s.append(" event");
        s
    }

    /// The first category that the event falls in, as a name in capitals.
    pub fn event_type(&self) -> (r: &'static str)
        ensures
            r@ == event_type_of(self.info.mask.bits),
    {
        if self.is_access() {
            "ACCESS"
        } else if self.is_modify() {
            "MODIFY"
        } else if self.is_open() {
            "OPEN"
        } else if self.is_close() {
            "CLOSE"
        } else if self.is_create() {
            "CREATE"
        } else if self.is_delete() {
            "DELETE"
        } else if self.is_move() {
            "MOVE"
        } else if self.is_permission() {
            "PERMISSION"
        } else if self.is_overflow() {
            "OVERFLOW"
        } else {
            "UNKNOWN"
        }
    }

    /// Decodes the record at the start of `data`.
    pub fn from_raw_data(data: &[u8]) -> (r: Result<Event>)
        ensures
            record_fault(data@, 0) is None <==> r is Ok,
            r matches Ok(e) ==> decoded_as(e, data@, 0),
            r matches Err(e) ==> fault_error(record_fault(data@, 0).unwrap(), e),
    {
        if data.len() == 0 {
            return Err(FanotifyError::invalid_event_data("Data too short"));
        }
        decode_record(data, 0)
    }
}

/// Where the component that ends at `end` starts: just after the last '/'
/// before `end`, or at 0.
pub open spec fn component_start(p: Seq<char>, end: int) -> int
    decreases end,
{
    if end <= 0 {
        0
    } else if p[end - 1] == '/' {
        end
    } else {
        component_start(p, end - 1)
    }
}

/// The last component of `p[..end]`, with empty and "." components passed
/// over; none when no component is left or when the last one is "..".
pub open spec fn last_component(p: Seq<char>, end: int) -> Option<Seq<char>>
    decreases end,
{
    if end <= 0 {
        None
    } else {
        let start = component_start(p, end);
        if start < 0 || start >= end {
            last_component(p, end - 1)
        } else if p.subrange(start, end) == seq!['.'] {
            last_component(p, start)
        } else if p.subrange(start, end) == seq!['.', '.'] {
            None
        } else {
            Some(p.subrange(start, end))
        }
    }
}

proof fn lemma_component_start(p: Seq<char>, end: int)
    requires
        0 <= end <= p.len(),
    ensures
        0 <= component_start(p, end) <= end,
        forall|i: int| component_start(p, end) <= i < end ==> p[i] != '/',
    decreases end,
{
    if end > 0 && p[end - 1] != '/' {
        lemma_component_start(p, end - 1);
    }
}

/// The last component of the path `p`.
fn file_name(p: &str) -> (r: Option<&str>)
    ensures
        r is Some == last_component(p@, p@.len() as int) is Some,
        r matches Some(n) ==> n@ == last_component(p@, p@.len() as int)->Some_0,
{
    let n = p.unicode_len();
    let mut end = n;
    while end > 0
        invariant
            end <= n == p@.len(),
            last_component(p@, end as int) == last_component(p@, n as int),
        decreases end,
    {
        let mut start = end;
        while start > 0 && p.get_char(start - 1) != '/'
            invariant
                start <= end <= n == p@.len(),
                component_start(p@, end as int) == component_start(p@, start as int),
            decreases start,
        {
            start = start - 1;
        }
        proof {
            lemma_component_start(p@, end as int);
        }
        let ghost c = p@.subrange(start as int, end as int);
        if start == end {
            end = end - 1;
        } else if end - start == 1 && p.get_char(start) == '.' {
            assert(c =~= seq!['.']);
            end = start;
        } else if end - start == 2 && p.get_char(start) == '.' && p.get_char(start + 1) == '.' {
            assert(c =~= seq!['.', '.']);
            return None;
        } else {
            let ghost dot = seq!['.'];
            let ghost dots = seq!['.', '.'];
            assert(dot.len() == 1 && dot[0] == '.');
            assert(dots.len() == 2 && dots[0] == '.' && dots[1] == '.');
            assert(c != dot) by {
                if c == dot {
                    assert(c[0] == p@[start as int]);
                }
            }
            assert(c != dots) by {
                if c == dots {
                    assert(c[0] == p@[start as int]);
                    assert(c[1] == p@[start + 1]);
                }
            }
            return Some(p.substring_char(start, end));
        }
    }
    None
}

impl EventInfo {
    /// The information of an event with the given mask and process, with no
    /// descriptor and no path.
    pub fn new(mask: MaskFlags, pid: u32) -> (r: EventInfo)
        ensures
            r.fd is None,
            r.path is None,
            r.mask == mask,
            r.pid == pid,
            r.is_directory == any_of(mask.bits, FAN_ISDIR),
    {
        EventInfo {
            fd: None,
            path: None,
            mask,
            pid,
            is_directory: mask.intersects(MaskFlags { bits: FAN_ISDIR }),
        }
    }

    /// The same information with the given descriptor.
    pub fn with_fd(self, fd: i32) -> (r: EventInfo)
        ensures
            r == (EventInfo { fd: Some(fd), ..self }),
    {
        let mut info = self;
        info.fd = Some(fd);
        info
    }

    /// The same information with the given path.
    pub fn with_path(self, path: String) -> (r: EventInfo)
        ensures
            r == (EventInfo { path: Some(path), ..self }),
    {
        let mut info = self;
        info.path = Some(path);
        info
    }

    /// The path as text, if there is one.
    pub fn path_str(&self) -> (r: Option<&str>)
        ensures
            r is Some == self.path is Some,
            r matches Some(s) ==> s@ == self.path->Some_0@,
    {
        match &self.path {
            Some(p) => Some(p.as_str()),
            None => None,
        }
    }

    /// The last component of the path, if there is a path and it ends in a
    /// name.
    pub fn filename(&self) -> (r: Option<&str>)
        ensures
            self.path is None ==> r is None,
            self.path matches Some(p) ==> (r is Some == last_component(p@, p@.len() as int) is Some),
            self.path matches Some(p) ==> (r matches Some(n) ==> n@ == last_component(
                p@,
                p@.len() as int,
            )->Some_0),
    {
        match &self.path {
            Some(p) => file_name(p.as_str()),
            None => None,
        }
    }
}

} // verus!
