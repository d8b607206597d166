use vstd::prelude::*;
use crate::cantypes::{PcanMsg, VciCanObj};

verus! {

/// Status with which a VCI driver call reports success.
pub const VCI_SUCCESS: i32 = 1;

/// Status with which a PCAN driver call reports success.
pub const PCAN_ERROR_OK: u32 = 0;

/// `s` without the NUL bytes at its front.
pub open spec fn trim_leading_nuls(s: Seq<u8>) -> Seq<u8>
    decreases s.len(),
{
    if s.len() > 0 && s[0] == 0 {
        trim_leading_nuls(s.drop_first())
    } else {
        s
    }
}

/// `s` without the NUL bytes at its end.
pub open spec fn trim_trailing_nuls(s: Seq<u8>) -> Seq<u8>
    decreases s.len(),
{
    if s.len() > 0 && s.last() == 0 {
        trim_trailing_nuls(s.drop_last())
    } else {
        s
    }
}

/// A fixed-size text field of the driver, without its NUL padding on either side.
pub open spec fn trim_nuls(s: Seq<u8>) -> Seq<u8> {
    trim_trailing_nuls(trim_leading_nuls(s))
}

/// Strips the NUL padding from both ends of a driver text field.
pub fn trim_nul(bytes: &[u8]) -> (r: Vec<u8>)
    ensures
        r@ == trim_nuls(bytes@),
{
    let n = bytes.len();
    let ghost s = bytes@;
    let mut lo: usize = 0;
    assert(s.subrange(0, n as int) =~= s);
    while lo < n && bytes[lo] == 0
        invariant
            lo <= n,
            n == s.len(),
            s == bytes@,
            trim_leading_nuls(s) == trim_leading_nuls(s.subrange(lo as int, n as int)),
        decreases n - lo,
    {
        assert(s.subrange(lo as int, n as int).drop_first() =~= s.subrange(lo + 1, n as int));
        lo = lo + 1;
    }
    assert(trim_leading_nuls(s) == s.subrange(lo as int, n as int));
    let mut hi: usize = n;
    while hi > lo && bytes[hi - 1] == 0
        invariant
            lo <= hi <= n,
            n == s.len(),
            s == bytes@,
            trim_nuls(s) == trim_trailing_nuls(s.subrange(lo as int, hi as int)),
        decreases hi,
    {
        assert(s.subrange(lo as int, hi as int).drop_last() =~= s.subrange(lo as int, hi - 1));
        hi = hi - 1;
    }
    let mut r: Vec<u8> = Vec::new();
    let mut i: usize = lo;
    while i < hi
        invariant
            lo <= i <= hi <= n,
            n == s.len(),
            s == bytes@,
            r@ == s.subrange(lo as int, i as int),
        decreases hi - i,
    {
        r.push(bytes[i]);
        i = i + 1;
        assert(r@ =~= s.subrange(lo as int, i as int));
    }
    r
}

/// One frame taken off the bus: the transient record that a poller forwards.
#[derive(Debug)]
pub struct Frame {
    pub channel: u32,
    pub id: u32,
    pub data: Vec<u8>,
}

/// How many payload bytes a length field stands for: a classic CAN frame
/// carries at most eight, so larger codes mean eight.
pub open spec fn payload_len(len: u8) -> int {
    if len <= 8 {
        len as int
    } else {
        8
    }
}

/// The first `len` bytes of an eight-byte payload buffer.
fn payload(buf: &[u8; 8], len: u8) -> (r: Vec<u8>)
    ensures
        r@ == buf@.take(payload_len(len)),
{
    let n: usize = if len <= 8 { len as usize } else { 8 };
    let mut r: Vec<u8> = Vec::new();
    let mut i: usize = 0;
    while i < n
        invariant
            i <= n,
            n == payload_len(len),
            buf@.len() == 8,
            r@ == buf@.take(i as int),
        decreases n - i,
    {
        r.push(buf[i]);
        i = i + 1;
        assert(r@ =~= buf@.take(i as int));
    }
    r
}

/// What one poll of a VCI channel yields: a frame when the driver reported
/// at least one received, and nothing otherwise (the usual case of an idle bus).
pub fn frame_from_vci(channel: u32, received: i32, obj: &VciCanObj) -> (r: Option<Frame>)
    ensures
        r is Some <==> received > 0,
        r matches Some(f) ==> f.channel == channel && f.id == obj.id && f.data@ == obj.data@.take(
            payload_len(obj.data_len),
        ),
{
    if received > 0 {
        Some(Frame { channel, id: obj.id, data: payload(&obj.data, obj.data_len) })
    } else {
        None
    }
}

/// What one poll of a PCAN channel yields: a frame when the read succeeded.
pub fn frame_from_pcan(channel: u32, status: u32, msg: &PcanMsg) -> (r: Option<Frame>)
    ensures
        r is Some <==> status == PCAN_ERROR_OK,
        r matches Some(f) ==> f.channel == channel && f.id == msg.id && f.data@ == msg.data@.take(
            payload_len(msg.len),
        ),
{
    if status == PCAN_ERROR_OK {
        Some(Frame { channel, id: msg.id, data: payload(&msg.data, msg.len) })
    } else {
        None
    }
}

} // verus!
