//! Byte-level reading and writing of the kernel's records.

use vstd::prelude::*;
use crate::linux::{
    fanotify_event_info_header, fanotify_event_metadata, fanotify_response,
    FAN_EVENT_INFO_HEADER_LEN, FAN_EVENT_METADATA_LEN, FAN_RESPONSE_LEN,
};

verus! {

/// The little-endian `u16` at `i`.
pub open spec fn le16(b: Seq<u8>, i: int) -> u16 {
    (b[i] as u16) | ((b[i + 1] as u16) << 8u16)
}

/// The little-endian `u32` at `i`.
pub open spec fn le32(b: Seq<u8>, i: int) -> u32 {
    (b[i] as u32) | ((b[i + 1] as u32) << 8u32) | ((b[i + 2] as u32) << 16u32) | ((
    b[i + 3] as u32) << 24u32)
}

/// The little-endian `u64` at `i`.
pub open spec fn le64(b: Seq<u8>, i: int) -> u64 {
    (le32(b, i) as u64) | ((le32(b, i + 4) as u64) << 32u64)
}

/// The little-endian bytes of `x`.
pub open spec fn bytes16(x: u16) -> Seq<u8> {
    seq![x as u8, (x >> 8u16) as u8]
}

/// The little-endian bytes of `x`.
pub open spec fn bytes32(x: u32) -> Seq<u8> {
    seq![x as u8, (x >> 8u32) as u8, (x >> 16u32) as u8, (x >> 24u32) as u8]
}

/// The little-endian bytes of `x`.
pub open spec fn bytes64(x: u64) -> Seq<u8> {
    bytes32(x as u32) + bytes32((x >> 32u64) as u32)
}

/// The event header whose bytes start at `off`.
pub open spec fn header_at(b: Seq<u8>, off: int) -> fanotify_event_metadata {
    fanotify_event_metadata {
        event_len: le32(b, off),
        vers: b[off + 4],
        reserved: b[off + 5],
        metadata_len: le16(b, off + 6),
        mask: le64(b, off + 8),
        fd: le32(b, off + 16) as i32,
        pid: le32(b, off + 20) as i32,
    }
}

/// The bytes of an event header.
pub open spec fn header_bytes(h: fanotify_event_metadata) -> Seq<u8> {
    bytes32(h.event_len) + seq![h.vers, h.reserved] + bytes16(h.metadata_len) + bytes64(h.mask)
        + bytes32(h.fd as u32) + bytes32(h.pid as u32)
}

/// The response record whose bytes start at `off`.
pub open spec fn response_at(b: Seq<u8>, off: int) -> fanotify_response {
    fanotify_response { fd: le32(b, off) as i32, response: le32(b, off + 4) }
}

/// The bytes of a response record.
pub open spec fn response_bytes(r: fanotify_response) -> Seq<u8> {
    bytes32(r.fd as u32) + bytes32(r.response)
}

/// The extension record header whose bytes start at `off`.
pub open spec fn info_header_at(b: Seq<u8>, off: int) -> fanotify_event_info_header {
    fanotify_event_info_header { info_type: b[off], pad: b[off + 1], len: le16(b, off + 2) }
}

proof fn lemma_u16(x: u16)
    ensures
        le16(bytes16(x), 0) == x,
{
    let b0 = x as u8;
    let b1 = (x >> 8u16) as u8;
    assert((b0 as u16) | ((b1 as u16) << 8u16) == x) by (bit_vector)
        requires
            b0 == x as u8,
            b1 == (x >> 8u16) as u8,
    ;
}

proof fn lemma_u32(x: u32)
    ensures
        le32(bytes32(x), 0) == x,
{
    let b0 = x as u8;
    let b1 = (x >> 8u32) as u8;
    let b2 = (x >> 16u32) as u8;
    let b3 = (x >> 24u32) as u8;
    assert((b0 as u32) | ((b1 as u32) << 8u32) | ((b2 as u32) << 16u32) | ((b3 as u32) << 24u32)
        == x) by (bit_vector)
        requires
            b0 == x as u8,
            b1 == (x >> 8u32) as u8,
            b2 == (x >> 16u32) as u8,
            b3 == (x >> 24u32) as u8,
    ;
}

proof fn lemma_u64(x: u64)
    ensures
        le64(bytes64(x), 0) == x,
{
    let lo = x as u32;
    let hi = (x >> 32u64) as u32;
    lemma_u32(lo);
    lemma_u32(hi);
    let b = bytes64(x);
    assert(b.subrange(0, 4) =~= bytes32(lo));
    assert(b.subrange(4, 8) =~= bytes32(hi));
    assert(le32(b, 0) == le32(bytes32(lo), 0));
    assert(le32(b, 4) == le32(bytes32(hi), 0));
    assert(((lo as u64) | ((hi as u64) << 32u64)) == x) by (bit_vector)
        requires
            lo == x as u32,
            hi == (x >> 32u64) as u32,
    ;
}

proof fn lemma_bytes16(b: Seq<u8>, i: int)
    requires
        0 <= i,
        i + 2 <= b.len(),
    ensures
        bytes16(le16(b, i)) =~= b.subrange(i, i + 2),
{
    let b0 = b[i];
    let b1 = b[i + 1];
    let v = le16(b, i);
    assert(v as u8 == b0 && (v >> 8u16) as u8 == b1) by (bit_vector)
        requires
            v == (b0 as u16) | ((b1 as u16) << 8u16),
    ;
}

proof fn lemma_bytes32(b: Seq<u8>, i: int)
    requires
        0 <= i,
        i + 4 <= b.len(),
    ensures
        bytes32(le32(b, i)) =~= b.subrange(i, i + 4),
{
    let b0 = b[i];
    let b1 = b[i + 1];
    let b2 = b[i + 2];
    let b3 = b[i + 3];
    let v = le32(b, i);
    assert(v as u8 == b0 && (v >> 8u32) as u8 == b1 && (v >> 16u32) as u8 == b2 && (v
        >> 24u32) as u8 == b3) by (bit_vector)
        requires
            v == (b0 as u32) | ((b1 as u32) << 8u32) | ((b2 as u32) << 16u32) | ((b3 as u32)
                << 24u32),
    ;
}

proof fn lemma_bytes64(b: Seq<u8>, i: int)
    requires
        0 <= i,
        i + 8 <= b.len(),
    ensures
        bytes64(le64(b, i)) =~= b.subrange(i, i + 8),
{
    let lo = le32(b, i);
    let hi = le32(b, i + 4);
    let v = le64(b, i);
    assert(v as u32 == lo && (v >> 32u64) as u32 == hi) by (bit_vector)
        requires
            v == (lo as u64) | ((hi as u64) << 32u64),
    ;
    lemma_bytes32(b, i);
    lemma_bytes32(b, i + 4);
}

proof fn lemma_i32(x: i32, y: u32)
    ensures
        (x as u32) as i32 == x,
        (y as i32) as u32 == y,
{
    assert((x as u32) as i32 == x) by (bit_vector);
    assert((y as i32) as u32 == y) by (bit_vector);
}

/// Reading the header back from its bytes gives the same header.
pub proof fn lemma_header_decode_encode(h: fanotify_event_metadata)
    ensures
        header_bytes(h).len() == FAN_EVENT_METADATA_LEN,
        header_at(header_bytes(h), 0) == h,
{
    let b = header_bytes(h);
    lemma_u32(h.event_len);
    lemma_u16(h.metadata_len);
    lemma_u64(h.mask);
    lemma_u32(h.fd as u32);
    lemma_u32(h.pid as u32);
    lemma_i32(h.fd, 0);
    lemma_i32(h.pid, 0);
    assert(b.subrange(0, 4) =~= bytes32(h.event_len));
    assert(b.subrange(6, 8) =~= bytes16(h.metadata_len));
    assert(b.subrange(8, 16) =~= bytes64(h.mask));
    assert(b.subrange(8, 12) =~= bytes64(h.mask).subrange(0, 4));
    assert(b.subrange(12, 16) =~= bytes64(h.mask).subrange(4, 8));
    assert(b.subrange(16, 20) =~= bytes32(h.fd as u32));
    assert(b.subrange(20, 24) =~= bytes32(h.pid as u32));
    assert(le32(b, 0) == le32(bytes32(h.event_len), 0));
    assert(le16(b, 6) == le16(bytes16(h.metadata_len), 0));
    assert(le32(b, 8) == le32(bytes64(h.mask), 0));
    assert(le32(b, 12) == le32(bytes64(h.mask), 4));
    assert(le64(b, 8) == le64(bytes64(h.mask), 0));
    assert(le32(b, 16) == le32(bytes32(h.fd as u32), 0));
    assert(le32(b, 20) == le32(bytes32(h.pid as u32), 0));
}

/// Writing out the header read at `off` gives back the bytes it was read from.
pub proof fn lemma_header_encode_decode(b: Seq<u8>, off: int)
    requires
        0 <= off,
        off + FAN_EVENT_METADATA_LEN <= b.len(),
    ensures
        header_bytes(header_at(b, off)) =~= b.subrange(off, off + FAN_EVENT_METADATA_LEN),
{
    let h = header_at(b, off);
    lemma_bytes32(b, off);
    lemma_bytes16(b, off + 6);
    lemma_bytes64(b, off + 8);
    lemma_bytes32(b, off + 16);
    lemma_bytes32(b, off + 20);
    lemma_i32(0, le32(b, off + 16));
    lemma_i32(0, le32(b, off + 20));
}

/// Reading a response back from its bytes gives the same response.
pub proof fn lemma_response_decode_encode(r: fanotify_response)
    ensures
        response_bytes(r).len() == FAN_RESPONSE_LEN,
        response_at(response_bytes(r), 0) == r,
{
    let b = response_bytes(r);
    lemma_u32(r.fd as u32);
    lemma_u32(r.response);
    lemma_i32(r.fd, 0);
    assert(b.subrange(0, 4) =~= bytes32(r.fd as u32));
    assert(b.subrange(4, 8) =~= bytes32(r.response));
    assert(le32(b, 0) == le32(bytes32(r.fd as u32), 0));
    assert(le32(b, 4) == le32(bytes32(r.response), 0));
}

proof fn lemma_le32_prefix(a: Seq<u8>, c: Seq<u8>, i: int)
    requires
        0 <= i,
        i + 4 <= a.len(),
    ensures
        le32(a + c, i) == le32(a, i),
{
    assert((a + c)[i] == a[i] && (a + c)[i + 1] == a[i + 1] && (a + c)[i + 2] == a[i + 2] && (a
        + c)[i + 3] == a[i + 3]);
}

proof fn lemma_le32_suffix(a: Seq<u8>, c: Seq<u8>, i: int)
    requires
        0 <= i,
        i + 4 <= c.len(),
    ensures
        le32(a + c, a.len() + i) == le32(c, i),
{
    let n = a.len() as int;
    assert((a + c)[n + i] == c[i] && (a + c)[n + i + 1] == c[i + 1] && (a + c)[n + i + 2] == c[i
        + 2] && (a + c)[n + i + 3] == c[i + 3]);
}

/// A header reads the same from a buffer that `c` follows.
pub proof fn lemma_header_prefix(a: Seq<u8>, c: Seq<u8>, off: int)
    requires
        0 <= off,
        off + FAN_EVENT_METADATA_LEN <= a.len(),
    ensures
        header_at(a + c, off) == header_at(a, off),
{
    lemma_le32_prefix(a, c, off);
    lemma_le32_prefix(a, c, off + 8);
    lemma_le32_prefix(a, c, off + 12);
    lemma_le32_prefix(a, c, off + 16);
    lemma_le32_prefix(a, c, off + 20);
    assert((a + c)[off + 4] == a[off + 4] && (a + c)[off + 5] == a[off + 5] && (a + c)[off + 6]
        == a[off + 6] && (a + c)[off + 7] == a[off + 7]);
}

/// A header reads the same from a buffer that `a` precedes.
pub proof fn lemma_header_suffix(a: Seq<u8>, c: Seq<u8>, off: int)
    requires
        0 <= off,
        off + FAN_EVENT_METADATA_LEN <= c.len(),
    ensures
        header_at(a + c, a.len() + off) == header_at(c, off),
{
    let n = a.len() as int;
    lemma_le32_suffix(a, c, off);
    lemma_le32_suffix(a, c, off + 8);
    lemma_le32_suffix(a, c, off + 12);
    lemma_le32_suffix(a, c, off + 16);
    lemma_le32_suffix(a, c, off + 20);
    assert((a + c)[n + off + 4] == c[off + 4] && (a + c)[n + off + 5] == c[off + 5] && (a + c)[n
        + off + 6] == c[off + 6] && (a + c)[n + off + 7] == c[off + 7]);
}

/// The bytes of a sequence of responses, written one after the other.
pub open spec fn response_stream(rs: Seq<fanotify_response>) -> Seq<u8>
    decreases rs.len(),
{
    if rs.len() == 0 {
        seq![]
    } else {
        response_stream(rs.drop_last()) + response_bytes(rs.last())
    }
}

/// Responses written one after the other, the same event answered twice
/// included, each read back from their place as exactly the response that
/// was written there: no record spills into the next.
pub proof fn lemma_response_stream(rs: Seq<fanotify_response>)
    ensures
        response_stream(rs).len() == FAN_RESPONSE_LEN * rs.len(),
        forall|i: int|
            0 <= i < rs.len() ==> #[trigger] response_at(response_stream(rs), FAN_RESPONSE_LEN * i)
                == rs[i],
    decreases rs.len(),
{
    if rs.len() > 0 {
        let init = rs.drop_last();
        let s = response_stream(init);
        let t = response_bytes(rs.last());
        lemma_response_stream(init);
        lemma_response_decode_encode(rs.last());
        assert forall|i: int| 0 <= i < rs.len() implies #[trigger] response_at(
            response_stream(rs),
            FAN_RESPONSE_LEN * i,
        ) == rs[i] by {
            if i < rs.len() - 1 {
                assert(response_at(s, FAN_RESPONSE_LEN * i) == init[i]);
                lemma_le32_prefix(s, t, FAN_RESPONSE_LEN * i);
                lemma_le32_prefix(s, t, FAN_RESPONSE_LEN * i + 4);
            } else {
                lemma_le32_suffix(s, t, 0);
                lemma_le32_suffix(s, t, 4);
            }
        }
    }
}

/// Reads the little-endian `u16` at `off`.
pub fn read_u16(data: &[u8], off: usize) -> (r: u16)
    requires
        off + 2 <= data@.len(),
    ensures
        r == le16(data@, off as int),
{
    (data[off] as u16) | ((data[off + 1] as u16) << 8u16)
}

/// Reads the little-endian `u32` at `off`.
pub fn read_u32(data: &[u8], off: usize) -> (r: u32)
    requires
        off + 4 <= data@.len(),
    ensures
        r == le32(data@, off as int),
{
    (data[off] as u32) | ((data[off + 1] as u32) << 8u32) | ((data[off + 2] as u32) << 16u32) | ((
    data[off + 3] as u32) << 24u32)
}

/// Reads the little-endian `u64` at `off`.
pub fn read_u64(data: &[u8], off: usize) -> (r: u64)
    requires
        off + 8 <= data@.len(),
    ensures
        r == le64(data@, off as int),
{
    // The call brings the bound of the slice's length into the proof.
    let _ = data.len();
    let lo = read_u32(data, off);
    let hi = read_u32(data, off + 4);
    (lo as u64) | ((hi as u64) << 32u64)
}

/// Appends the little-endian bytes of `x`.
pub fn push_u16(out: &mut Vec<u8>, x: u16)
    ensures
        final(out)@ == old(out)@ + bytes16(x),
{
    out.push(x as u8);
    out.push((x >> 8u16) as u8);
    assert(final(out)@ =~= old(out)@ + bytes16(x));
}

/// Appends the little-endian bytes of `x`.
pub fn push_u32(out: &mut Vec<u8>, x: u32)
    ensures
        final(out)@ == old(out)@ + bytes32(x),
{
    out.push(x as u8);
    out.push((x >> 8u32) as u8);
    out.push((x >> 16u32) as u8);
    out.push((x >> 24u32) as u8);
    assert(final(out)@ =~= old(out)@ + bytes32(x));
}

/// Appends the little-endian bytes of `x`.
pub fn push_u64(out: &mut Vec<u8>, x: u64)
    ensures
        final(out)@ == old(out)@ + bytes64(x),
{
    push_u32(out, x as u32);
    push_u32(out, (x >> 32u64) as u32);
    assert(final(out)@ =~= old(out)@ + bytes64(x));
}

impl fanotify_event_metadata {
    /// The header at the start of `data`, if `data` is long enough to hold one.
    pub fn from_bytes(data: &[u8]) -> (r: Option<fanotify_event_metadata>)
        ensures
            r.is_some() <==> data@.len() >= FAN_EVENT_METADATA_LEN,
            r.is_some() ==> r.unwrap() == header_at(data@, 0),
    {
        if data.len() < FAN_EVENT_METADATA_LEN {
            return None;
        }
        Some(read_header(data, 0))
    }

    /// The header's bytes as the kernel lays them out.
    pub fn to_bytes(&self) -> (r: Vec<u8>)
        ensures
            r@ == header_bytes(*self),
    {
        let mut out: Vec<u8> = Vec::new();
        push_u32(&mut out, self.event_len);
        out.push(self.vers);
        out.push(self.reserved);
        push_u16(&mut out, self.metadata_len);
        push_u64(&mut out, self.mask);
        push_u32(&mut out, #[verifier::truncate] (self.fd as u32));
        push_u32(&mut out, #[verifier::truncate] (self.pid as u32));
        assert(out@ =~= header_bytes(*self));
        out
    }
}

/// Reads the event header at `off`.
pub fn read_header(data: &[u8], off: usize) -> (r: fanotify_event_metadata)
    requires
        off + FAN_EVENT_METADATA_LEN <= data@.len(),
    ensures
        r == header_at(data@, off as int),
{
    // The call brings the bound of the slice's length into the proof.
    let _ = data.len();
    fanotify_event_metadata {
        event_len: read_u32(data, off),
        vers: data[off + 4],
        reserved: data[off + 5],
        metadata_len: read_u16(data, off + 6),
        mask: read_u64(data, off + 8),
        fd: #[verifier::truncate] (read_u32(data, off + 16) as i32),
        pid: #[verifier::truncate] (read_u32(data, off + 20) as i32),
    }
}

impl fanotify_response {
    /// The record's bytes as the kernel reads them.
    pub fn to_bytes(&self) -> (r: Vec<u8>)
        ensures
            r@ == response_bytes(*self),
            r@.len() == FAN_RESPONSE_LEN,
    {
        let mut out: Vec<u8> = Vec::new();
        push_u32(&mut out, #[verifier::truncate] (self.fd as u32));
        push_u32(&mut out, self.response);
        assert(out@ =~= response_bytes(*self));
        out
    }

    /// The response at the start of `data`, if `data` is long enough to hold one.
    pub fn from_bytes(data: &[u8]) -> (r: Option<fanotify_response>)
        ensures
            r.is_some() <==> data@.len() >= FAN_RESPONSE_LEN,
            r.is_some() ==> r.unwrap() == response_at(data@, 0),
    {
        if data.len() < FAN_RESPONSE_LEN {
            return None;
        }
        Some(fanotify_response { fd: #[verifier::truncate] (read_u32(data, 0) as i32), response: read_u32(data, 4) })
    }
}

impl fanotify_event_info_header {
    /// The extension header at `off`, if `data` holds one there.
    pub fn from_bytes(data: &[u8], off: usize) -> (r: Option<fanotify_event_info_header>)
        ensures
            r.is_some() <==> off + FAN_EVENT_INFO_HEADER_LEN <= data@.len(),
            r.is_some() ==> r.unwrap() == info_header_at(data@, off as int),
    {
        if off > data.len() || data.len() - off < FAN_EVENT_INFO_HEADER_LEN {
            return None;
        }
        Some(fanotify_event_info_header {
            info_type: data[off],
            pad: data[off + 1],
            len: read_u16(data, off + 2),
        })
    }
}

/// Copies `data[from..to]`.
pub fn copy_range(data: &[u8], from: usize, to: usize) -> (r: Vec<u8>)
    requires
        from <= to <= data@.len(),
    ensures
        r@ == data@.subrange(from as int, to as int),
{
    let mut out: Vec<u8> = Vec::new();
    let mut i = from;
    while i < to
        invariant
            from <= i <= to <= data@.len(),
            out@ == data@.subrange(from as int, i as int),
        decreases to - i,
    {
        out.push(data[i]);
        i = i + 1;
        assert(out@ =~= data@.subrange(from as int, i as int));
    }
    out
}

} // verus!
