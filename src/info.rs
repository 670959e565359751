//! Extension records: the optional identifier, name, error and pidfd
//! information that follows an event's fixed header.

use vstd::prelude::*;
use crate::error::{FanotifyError, Result};
use crate::event::Event;
use crate::linux::{
    fanotify_event_info_error, fanotify_event_info_fid, fanotify_event_info_header,
    fanotify_event_info_name, fanotify_event_info_pidfd, FAN_EVENT_INFO_HEADER_LEN,
    FAN_EVENT_INFO_TYPE_DFID, FAN_EVENT_INFO_TYPE_DFID_NAME, FAN_EVENT_INFO_TYPE_ERROR,
    FAN_EVENT_INFO_TYPE_FID, FAN_EVENT_INFO_TYPE_NEW_DFID_NAME, FAN_EVENT_INFO_TYPE_OLD_NAME,
    FAN_EVENT_INFO_TYPE_PIDFD, FAN_EVENT_METADATA_LEN,
};
use crate::wire::{copy_range, info_header_at, le16, le32, le64, read_u16, read_u32, read_u64};

verus! {

/// One extension record, by kind.
#[derive(Debug, Clone)]
pub enum InfoRecord {
    /// A file identifier.
    Fid(fanotify_event_info_fid),
    /// A directory identifier followed by a name.
    Name(fanotify_event_info_name),
    /// A filesystem error report.
    Error(fanotify_event_info_error),
    /// A descriptor for the process that caused the event.
    Pidfd(fanotify_event_info_pidfd),
    /// A kind this library does not read further.
    Other(fanotify_event_info_header),
}

/// Whether `t` is a kind that carries a file identifier alone.
pub open spec fn is_fid_type(t: u8) -> bool {
    t == FAN_EVENT_INFO_TYPE_FID || t == FAN_EVENT_INFO_TYPE_DFID
}

/// Whether `t` is a kind that carries a directory identifier and a name.
pub open spec fn is_name_type(t: u8) -> bool {
    t == FAN_EVENT_INFO_TYPE_DFID_NAME || t == FAN_EVENT_INFO_TYPE_OLD_NAME || t
        == FAN_EVENT_INFO_TYPE_NEW_DFID_NAME
}

/// The least length of a record of kind `t`, header included.
pub open spec fn min_info_len(t: u8) -> int {
    if is_fid_type(t) {
        12
    } else if t == FAN_EVENT_INFO_TYPE_ERROR {
        16
    } else if t == FAN_EVENT_INFO_TYPE_PIDFD {
        8
    } else {
        4
    }
}

/// The offsets of the extension records of `b` from `off` on, or none when
/// one of them is cut short or its length does not fit.
pub open spec fn info_offsets(b: Seq<u8>, off: int) -> Option<Seq<int>>
    decreases b.len() - off,
{
    if off < 0 || off >= b.len() {
        Some(seq![])
    } else if b.len() - off < FAN_EVENT_INFO_HEADER_LEN {
        None
    } else if le16(b, off + 2) < min_info_len(b[off]) || le16(b, off + 2) < 4 || le16(b, off + 2)
        > b.len() - off {
        None
    } else {
        match info_offsets(b, off + le16(b, off + 2)) {
            Some(s) => Some(seq![off] + s),
            None => None,
        }
    }
}

/// `r` is what the extension record at `off` of `b` reads as.
pub open spec fn info_record_as(r: InfoRecord, b: Seq<u8>, off: int) -> bool {
    let h = info_header_at(b, off);
    let end = off + h.len;
    if is_fid_type(h.info_type) {
        r matches InfoRecord::Fid(f) && f.hdr == h && f.fsid@ == seq![
            le32(b, off + 4) as i32,
            le32(b, off + 8) as i32,
        ] && f.file_handle@ == b.subrange(off + 12, end)
    } else if is_name_type(h.info_type) {
        r matches InfoRecord::Name(n) && n.hdr == h && n.dir_fh@ == b.subrange(off + 4, end)
    } else if h.info_type == FAN_EVENT_INFO_TYPE_ERROR {
        r == InfoRecord::Error(
            fanotify_event_info_error {
                hdr: h,
                error: le32(b, off + 4) as i32,
                error_count: le64(b, off + 8),
            },
        )
    } else if h.info_type == FAN_EVENT_INFO_TYPE_PIDFD {
        r == InfoRecord::Pidfd(fanotify_event_info_pidfd { hdr: h, pidfd: le32(b, off + 4) as i32 })
    } else {
        r == InfoRecord::Other(h)
    }
}

/// `offs` put before the offsets of `r`.
pub open spec fn info_after(offs: Seq<int>, r: Option<Seq<int>>) -> Option<Seq<int>> {
    match r {
        Some(s) => Some(offs + s),
        None => None,
    }
}

/// The offset at which the extension records of an event record start: its
/// declared header length, when the record holds a whole header.
pub open spec fn info_start(b: Seq<u8>) -> Option<int> {
    if b.len() < FAN_EVENT_METADATA_LEN {
        None
    } else if le16(b, 6) < FAN_EVENT_METADATA_LEN || le16(b, 6) > b.len() {
        None
    } else {
        Some(le16(b, 6) as int)
    }
}

/// The extension records of the event record `b`, in order, or none when
/// the record is malformed.
pub open spec fn info_records_of(b: Seq<u8>) -> Option<Seq<int>> {
    match info_start(b) {
        Some(s) => info_offsets(b, s),
        None => None,
    }
}

/// Reads the extension record at `off`, whose length has been checked.
fn read_info_record(data: &[u8], off: usize) -> (r: InfoRecord)
    requires
        off + FAN_EVENT_INFO_HEADER_LEN <= data@.len(),
        le16(data@, off + 2) >= min_info_len(data@[off as int]),
        off + le16(data@, off + 2) <= data@.len(),
    ensures
        info_record_as(r, data@, off as int),
{
    // The call brings the bound of the slice's length into the proof.
    let _ = data.len();
    let hdr = fanotify_event_info_header {
        info_type: data[off],
        pad: data[off + 1],
        len: read_u16(data, off + 2),
    };
    let end = off + hdr.len as usize;
    let t = hdr.info_type;
    if t == FAN_EVENT_INFO_TYPE_FID || t == FAN_EVENT_INFO_TYPE_DFID {
        let a = #[verifier::truncate] (read_u32(data, off + 4) as i32);
        let b = #[verifier::truncate] (read_u32(data, off + 8) as i32);
        let fsid = [a, b];
        assert(fsid@ =~= seq![a, b]);
        InfoRecord::Fid(
            fanotify_event_info_fid { hdr, fsid, file_handle: copy_range(data, off + 12, end) },
        )
    } else if t == FAN_EVENT_INFO_TYPE_DFID_NAME || t == FAN_EVENT_INFO_TYPE_OLD_NAME || t
        == FAN_EVENT_INFO_TYPE_NEW_DFID_NAME {
        InfoRecord::Name(fanotify_event_info_name { hdr, dir_fh: copy_range(data, off + 4, end) })
    } else if t == FAN_EVENT_INFO_TYPE_ERROR {
        InfoRecord::Error(
            fanotify_event_info_error {
                hdr,
                error: #[verifier::truncate] (read_u32(data, off + 4) as i32),
                error_count: read_u64(data, off + 8),
            },
        )
    } else if t == FAN_EVENT_INFO_TYPE_PIDFD {
        InfoRecord::Pidfd(
            fanotify_event_info_pidfd {
                hdr,
                pidfd: #[verifier::truncate] (read_u32(data, off + 4) as i32),
            },
        )
    } else {
        InfoRecord::Other(hdr)
    }
}

/// The least length of a record of kind `t`.
fn min_len(t: u8) -> (r: u16)
    ensures
        r == min_info_len(t),
{
    if t == FAN_EVENT_INFO_TYPE_FID || t == FAN_EVENT_INFO_TYPE_DFID {
        12
    } else if t == FAN_EVENT_INFO_TYPE_ERROR {
        16
    } else if t == FAN_EVENT_INFO_TYPE_PIDFD {
        8
    } else {
        4
    }
}

/// Reads the extension records of `data` from `start` on.
fn read_info_records(data: &[u8], start: usize) -> (r: Result<Vec<InfoRecord>>)
    requires
        start <= data@.len(),
    ensures
        info_offsets(data@, start as int) is Some <==> r is Ok,
        r matches Ok(rs) ==> rs@.len() == info_offsets(data@, start as int)->Some_0.len()
            && forall|i: int|
            0 <= i < rs@.len() ==> info_record_as(
                #[trigger] rs@[i],
                data@,
                info_offsets(data@, start as int)->Some_0[i],
            ),
        r matches Err(e) ==> e is InvalidEventData,
{
    let mut out: Vec<InfoRecord> = Vec::new();
    let mut off = start;
    let ghost mut offs: Seq<int> = seq![];
    while off < data.len()
        invariant
            start <= off <= data@.len(),
            out@.len() == offs.len(),
            forall|i: int| 0 <= i < offs.len() ==> info_record_as(#[trigger] out@[i], data@, offs[i]),
            info_offsets(data@, start as int) == info_after(offs, info_offsets(data@, off as int)),
        decreases data@.len() - off,
    {
        if data.len() - off < FAN_EVENT_INFO_HEADER_LEN {
            return Err(FanotifyError::invalid_event_data("Extension record too short"));
        }
        let len = read_u16(data, off + 2);
        if len < min_len(data[off]) || len < 4 || len as usize > data.len() - off {
            return Err(FanotifyError::invalid_event_data("Invalid extension record length"));
        }
        let rec = read_info_record(data, off);
        proof {
            let rest = info_offsets(data@, off + len);
            assert(info_offsets(data@, off as int) == info_after(seq![off as int], rest));
            match rest {
                Some(s) => {
                    assert(offs + (seq![off as int] + s) =~= offs.push(off as int) + s);
                },
                None => {},
            }
            offs = offs.push(off as int);
        }
        out.push(rec);
        off = off + len as usize;
    }
    proof {
        assert(offs + seq![] =~= offs);
    }
    Ok(out)
}

impl Event {
    /// The extension records that follow the fixed header, read from the
    /// event's record bytes in the order they stand.
    pub fn info_records(&self) -> (r: Result<Vec<InfoRecord>>)
        ensures
            info_records_of(self.raw_data@) is Some <==> r is Ok,
            r matches Ok(rs) ==> rs@.len() == info_records_of(self.raw_data@)->Some_0.len()
                && forall|i: int|
                0 <= i < rs@.len() ==> info_record_as(
                    #[trigger] rs@[i],
                    self.raw_data@,
                    info_records_of(self.raw_data@)->Some_0[i],
                ),
            r matches Err(e) ==> e is InvalidEventData,
    {
        let data = self.raw_data.as_slice();
        if data.len() < FAN_EVENT_METADATA_LEN {
            return Err(FanotifyError::invalid_event_data("Data too short"));
        }
        let start = read_u16(data, 6) as usize;
        if start < FAN_EVENT_METADATA_LEN || start > data.len() {
            return Err(FanotifyError::invalid_event_data("Invalid header length"));
        }
        read_info_records(data, start)
    }
}

} // verus!
