//! The frame scanner.
//!
//! [`parse_frame`] looks for one complete, checksum-valid frame in a buffer.
//! Every outcome says how many leading bytes the caller may drop, so the
//! scanner keeps no state between calls.

use vstd::prelude::*;
use crate::crc::{
    header_crc, lemma_crc16_detects_change, lemma_crc8_detects_change, packet_crc, rm_s1_crc16,
    rm_s1_crc8,
};
use crate::wire::{le16, spec_frame_valid, spec_length_field, SOF};

verus! {

/// Why no frame could be taken from a buffer.
#[derive(Debug, Clone, Copy, PartialEq, Eq, Structural)]
pub enum ParseError {
    /// Not enough data: the first number is how many more bytes are needed
    /// at least, the second how many leading bytes come before the marker
    /// and may be dropped.
    NeedMoreData(usize, usize),
    /// The buffer holds no start of frame marker: all of it may be dropped.
    NoStartOfFrame,
    /// The header checksum does not match; the number is how many leading
    /// bytes to drop, up to and including the header checksum.
    InvalidHeaderCRC(usize),
    /// The frame checksum does not match; the number is how many leading
    /// bytes to drop, up to and including the header checksum.
    InvalidPacketCRC(usize),
}

/// The first index at or after `i` that holds the marker, or the length of `b`.
pub open spec fn sof_index_from(b: Seq<u8>, i: int) -> int
    decreases b.len() - i,
{
    if i >= b.len() {
        b.len() as int
    } else if b[i] == SOF {
        i
    } else {
        sof_index_from(b, i + 1)
    }
}

/// The index of the first marker in `b`, or the length of `b` if it holds none.
pub open spec fn sof_index(b: Seq<u8>) -> int {
    sof_index_from(b, 0)
}

/// The length field of a frame that starts at `k` in `b`.
pub open spec fn length_at(b: Seq<u8>, k: int) -> int {
    b[k + 1] as int + (b[k + 2] % 4) as int * 256
}

/// Whether the header checksum of a frame that starts at `k` in `b` matches.
pub open spec fn header_ok_at(b: Seq<u8>, k: int) -> bool {
    header_crc(b.subrange(k, k + 3)) == b[k + 3]
}

/// Whether the trailing checksum of a frame of `len` bytes at `k` in `b` matches.
pub open spec fn packet_ok_at(b: Seq<u8>, k: int, len: int) -> bool {
    &&& len >= 2
    &&& packet_crc(b.subrange(k, k + len - 2)) == le16(b[k + len - 2], b[k + len - 1])
}

/// What scanning `b` gives: `Ok((start, end))` for a frame at `b[start..end]`,
/// of which `end` bytes are consumed, or the error.
///
/// A length field under 2 leaves no room for the trailing checksum, so it
/// counts as a checksum mismatch.
pub open spec fn spec_parse(b: Seq<u8>) -> Result<(int, int), ParseError> {
    let k = sof_index(b);
    if k == b.len() {
        Err(ParseError::NoStartOfFrame)
    } else if k + 4 > b.len() {
        Err(ParseError::NeedMoreData((4 - (b.len() - k)) as usize, k as usize))
    } else if !header_ok_at(b, k) {
        Err(ParseError::InvalidHeaderCRC((k + 3) as usize))
    } else if k + length_at(b, k) > b.len() {
        Err(ParseError::NeedMoreData((length_at(b, k) - (b.len() - k)) as usize, k as usize))
    } else if !packet_ok_at(b, k, length_at(b, k)) {
        Err(ParseError::InvalidPacketCRC((k + 3) as usize))
    } else {
        Ok((k, k + length_at(b, k)))
    }
}

/// `sof_index_from` finds the first marker at or after `i`.
pub proof fn lemma_sof_index_from(b: Seq<u8>, i: int)
    requires
        0 <= i <= b.len(),
    ensures
        i <= sof_index_from(b, i) <= b.len(),
        forall|j: int| i <= j < sof_index_from(b, i) ==> b[j] != SOF,
        sof_index_from(b, i) < b.len() ==> b[sof_index_from(b, i)] == SOF,
    decreases b.len() - i,
{
    if i < b.len() && b[i] != SOF {
        lemma_sof_index_from(b, i + 1);
    }
}

/// `sof_index` finds the first marker.
pub proof fn lemma_sof_index(b: Seq<u8>)
    ensures
        0 <= sof_index(b) <= b.len(),
        forall|j: int| 0 <= j < sof_index(b) ==> b[j] != SOF,
        sof_index(b) < b.len() ==> b[sof_index(b)] == SOF,
{
    lemma_sof_index_from(b, 0);
}

/// An index with no marker before it and the marker (or the end) at it is
/// the one that `sof_index` gives.
pub proof fn lemma_sof_index_unique(b: Seq<u8>, k: int)
    requires
        0 <= k <= b.len(),
        forall|j: int| 0 <= j < k ==> b[j] != SOF,
        k < b.len() ==> b[k] == SOF,
    ensures
        sof_index(b) == k,
{
    lemma_sof_index(b);
    if sof_index(b) < k {
        assert(b[sof_index(b)] == SOF);
    } else if sof_index(b) > k {
        assert(b[k] != SOF);
    }
}

/// Scanning looks no further than the frame or the header it rejects: bytes
/// appended behind them change nothing.
pub proof fn lemma_parse_extend(b: Seq<u8>, e: Seq<u8>)
    requires
        b.len() + e.len() <= usize::MAX,
        spec_parse(b) is Ok || spec_parse(b) is Err && (spec_parse(b)->Err_0 is InvalidHeaderCRC
            || spec_parse(b)->Err_0 is InvalidPacketCRC),
    ensures
        spec_parse(b + e) == spec_parse(b),
{
    let x = b + e;
    lemma_sof_index(b);
    let k = sof_index(b);
    lemma_sof_index_unique(x, k);
    assert(x.subrange(k, k + 3) =~= b.subrange(k, k + 3));
    let len = length_at(b, k);
    if k + len <= b.len() && len >= 2 {
        assert(x.subrange(k, k + len - 2) =~= b.subrange(k, k + len - 2));
    }
}

/// Bytes without a marker in front of a buffer only shift what scanning it
/// finds.
pub proof fn lemma_parse_skip(p: Seq<u8>, b: Seq<u8>)
    requires
        p.len() + b.len() <= usize::MAX,
        forall|j: int| 0 <= j < p.len() ==> p[j] != SOF,
    ensures
        ({
            let n = p.len() as int;
            match spec_parse(b) {
                Ok((s, e)) => spec_parse(p + b) == Ok::<(int, int), ParseError>((n + s, n + e)),
                Err(ParseError::NeedMoreData(m, c)) => spec_parse(p + b) == Err::<
                    (int, int),
                    ParseError,
                >(ParseError::NeedMoreData(m, (n + c) as usize)),
                Err(ParseError::NoStartOfFrame) => spec_parse(p + b) == Err::<(int, int), ParseError>(
                    ParseError::NoStartOfFrame,
                ),
                Err(ParseError::InvalidHeaderCRC(c)) => spec_parse(p + b) == Err::<
                    (int, int),
                    ParseError,
                >(ParseError::InvalidHeaderCRC((n + c) as usize)),
                Err(ParseError::InvalidPacketCRC(c)) => spec_parse(p + b) == Err::<
                    (int, int),
                    ParseError,
                >(ParseError::InvalidPacketCRC((n + c) as usize)),
            }
        }),
{
    let x = p + b;
    let n = p.len() as int;
    lemma_sof_index(b);
    let k = sof_index(b);
    lemma_sof_index_unique(x, n + k);
    if k + 4 <= b.len() {
        assert(x.subrange(n + k, n + k + 3) =~= b.subrange(k, k + 3));
        let len = length_at(b, k);
        if k + len <= b.len() && len >= 2 {
            assert(x.subrange(n + k, n + k + len - 2) =~= b.subrange(k, k + len - 2));
        }
    }
}

/// Whether `b` holds, from `k` on, the marker, a full header and as many
/// bytes as the length field announces, with no marker before `k`.
pub open spec fn frame_embedded_at(b: Seq<u8>, k: int) -> bool {
    &&& 0 <= k
    &&& k + 4 <= b.len()
    &&& b[k] == SOF
    &&& forall|j: int| 0 <= j < k ==> b[j] != SOF
    &&& k + length_at(b, k) <= b.len()
}

/// A frame embedded at `k` is found, with `k` plus its length consumed,
/// exactly when both its checksums match.
pub proof fn lemma_scan_embedded_frame(b: Seq<u8>, k: int)
    requires
        b.len() <= usize::MAX,
        frame_embedded_at(b, k),
    ensures
        spec_parse(b) is Ok <==> header_ok_at(b, k) && packet_ok_at(b, k, length_at(b, k)),
        spec_parse(b) is Ok ==> spec_parse(b)->Ok_0 == (k, k + length_at(b, k)),
{
    lemma_sof_index_unique(b, k);
}

/// Flipping one bit of the length field or of the header checksum of a
/// frame whose header checksum matched makes the header checksum fail.
pub proof fn lemma_header_flip_detected(b: Seq<u8>, k: int, p: int, bit: u8)
    requires
        b.len() <= usize::MAX,
        frame_embedded_at(b, k),
        header_ok_at(b, k),
        k < p <= k + 3,
        bit < 8,
    ensures
        spec_parse(b.update(p, b[p] ^ (1u8 << bit))) == Err::<(int, int), ParseError>(
            ParseError::InvalidHeaderCRC((k + 3) as usize),
        ),
{
    let old_byte = b[p];
    let new_byte = old_byte ^ (1u8 << bit);
    assert(bit < 8 ==> old_byte ^ (1u8 << bit) != old_byte) by (bit_vector);
    let x = b.update(p, new_byte);
    lemma_sof_index_unique(x, k);
    if p < k + 3 {
        assert(x.subrange(k, k + 3) =~= b.subrange(k, k + 3).update(p - k, new_byte));
        lemma_crc8_detects_change(0x77, b.subrange(k, k + 3), p - k, new_byte);
    } else {
        assert(x.subrange(k, k + 3) =~= b.subrange(k, k + 3));
    }
}

/// Flipping one bit anywhere after the header checksum of a frame that
/// passed both checks makes the frame checksum fail.
pub proof fn lemma_packet_flip_detected(b: Seq<u8>, k: int, p: int, bit: u8)
    requires
        b.len() <= usize::MAX,
        frame_embedded_at(b, k),
        header_ok_at(b, k),
        packet_ok_at(b, k, length_at(b, k)),
        k + 4 <= p < k + length_at(b, k),
        bit < 8,
    ensures
        spec_parse(b.update(p, b[p] ^ (1u8 << bit))) == Err::<(int, int), ParseError>(
            ParseError::InvalidPacketCRC((k + 3) as usize),
        ),
{
    let old_byte = b[p];
    let new_byte = old_byte ^ (1u8 << bit);
    assert(bit < 8 ==> old_byte ^ (1u8 << bit) != old_byte) by (bit_vector);
    let x = b.update(p, new_byte);
    let len = length_at(b, k);
    lemma_sof_index_unique(x, k);
    assert(x.subrange(k, k + 3) =~= b.subrange(k, k + 3));
    assert(length_at(x, k) == len);
    if p < k + len - 2 {
        assert(x.subrange(k, k + len - 2) =~= b.subrange(k, k + len - 2).update(p - k, new_byte));
        lemma_crc16_detects_change(0x3692, b.subrange(k, k + len - 2), p - k, new_byte);
    } else {
        assert(x.subrange(k, k + len - 2) =~= b.subrange(k, k + len - 2));
    }
}

/// A length field that points past the end of the buffer makes scanning
/// ask for exactly the bytes still missing.
pub proof fn lemma_length_past_end(b: Seq<u8>, k: int)
    requires
        b.len() <= usize::MAX,
        0 <= k,
        k + 4 <= b.len(),
        b[k] == SOF,
        forall|j: int| 0 <= j < k ==> b[j] != SOF,
        header_ok_at(b, k),
        k + length_at(b, k) > b.len(),
    ensures
        spec_parse(b) == Err::<(int, int), ParseError>(
            ParseError::NeedMoreData((length_at(b, k) - (b.len() - k)) as usize, k as usize),
        ),
{
    lemma_sof_index_unique(b, k);
}

/// A buffer that holds one valid frame and nothing else scans to the whole
/// buffer.
pub proof fn lemma_valid_frame_scans_whole(b: Seq<u8>)
    requires
        b.len() <= usize::MAX,
        spec_frame_valid(b),
        spec_length_field(b) == b.len(),
    ensures
        spec_parse(b) == Ok::<(int, int), ParseError>((0, b.len() as int)),
{
    lemma_sof_index_unique(b, 0);
    assert(length_at(b, 0) == b.len());
}

/// Tries to take one frame from the front of `buffer`.
///
/// On success returns the frame's bytes and the number of bytes consumed,
/// the garbage before the frame included. On failure the error says how many
/// leading bytes the caller should drop before it tries again.
pub fn parse_frame(buffer: &[u8]) -> (r: Result<(&[u8], usize), ParseError>)
    ensures
        r is Ok <==> spec_parse(buffer@) is Ok,
        r is Ok ==> ({
            let (s, e) = spec_parse(buffer@)->Ok_0;
            &&& r->Ok_0.0@ == buffer@.subrange(s, e)
            &&& r->Ok_0.1 == e
        }),
        r is Err ==> r->Err_0 == spec_parse(buffer@)->Err_0,
{
    let n = buffer.len();
    let mut idx: usize = 0;
    while idx < n && buffer[idx] != SOF
        invariant
            n == buffer@.len(),
            idx <= n,
            forall|j: int| 0 <= j < idx ==> buffer@[j] != SOF,
        decreases n - idx,
    {
        idx = idx + 1;
    }
    proof {
        lemma_sof_index_unique(buffer@, idx as int);
    }
    if idx == n {
        return Err(ParseError::NoStartOfFrame);
    }
    if n - idx < 4 {
        return Err(ParseError::NeedMoreData(4 - (n - idx), idx));
    }
    let frame_len: usize = buffer[idx + 1] as usize + ((buffer[idx + 2] % 4) as usize) * 256;
    let header_crc = buffer[idx + 3];
    if rm_s1_crc8(&buffer[idx..idx + 3]) != header_crc {
        return Err(ParseError::InvalidHeaderCRC(idx + 3));
    }
    if frame_len > n - idx {
        return Err(ParseError::NeedMoreData(frame_len - (n - idx), idx));
    }
    if frame_len < 2 {
        return Err(ParseError::InvalidPacketCRC(idx + 3));
    }
    let end = idx + frame_len;
    let stored: u16 = buffer[end - 2] as u16 + (buffer[end - 1] as u16) * 256;
    if rm_s1_crc16(&buffer[idx..end - 2]) != stored {
        return Err(ParseError::InvalidPacketCRC(idx + 3));
    }
    Ok((&buffer[idx..end], end))
}

} // verus!
