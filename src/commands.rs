//! Typed views over the payloads of single commands.
//!
//! Each view wraps a [`RMWireFrameView`] and names the fields that one
//! command keeps at fixed offsets of the payload. A view checks nothing on
//! its own: its `is_valid`, where it has one, says whether the frame is
//! valid and carries the command that the view reads.

use vstd::prelude::*;
use crate::wire::{spec_payload, FrameBuffer, FrameBufferMut, RMWireFrameView, MIN_FRAME_LEN};

pub mod chassis;
pub mod gimbal;
pub mod rmc;

verus! {

/// Little-endian signed value of two bytes.
pub open spec fn le_i16(lo: u8, hi: u8) -> int {
    let u = lo as int + hi as int * 256;
    if u < 32768 {
        u
    } else {
        u - 65536
    }
}

/// The two's complement bits of `v`.
pub open spec fn i16_bits(v: i16) -> u16 {
    if v >= 0 {
        v as u16
    } else {
        (v + 65536) as u16
    }
}

/// Little-endian unsigned value of the two bytes of `b` from `i` on.
pub open spec fn le_u16_at(b: Seq<u8>, i: int) -> int {
    b[i] as int + b[i + 1] as int * 256
}

/// Little-endian unsigned value of the four bytes of `b` from `i` on.
pub open spec fn le_u32_at(b: Seq<u8>, i: int) -> int {
    b[i] as int + b[i + 1] as int * 256 + b[i + 2] as int * 65536 + b[i + 3] as int * 16777216
}

/// Whether a frame of `len` bytes has a payload byte at index `i`, which is
/// one of the offsets that a command reads.
pub open spec fn has_payload_byte(len: nat, i: int) -> bool {
    0 <= i < 64 && MIN_FRAME_LEN + i < len
}

pub(crate) fn payload_u8<T: FrameBuffer>(frame: &RMWireFrameView<T>, i: usize) -> (r: u8)
    requires
        has_payload_byte(frame@.len(), i as int),
    ensures
        r == spec_payload(frame@)[i as int],
        r == frame@[11 + i],
{
    frame.payload()[i]
}

pub(crate) fn payload_u16<T: FrameBuffer>(frame: &RMWireFrameView<T>, i: usize) -> (r: u16)
    requires
        has_payload_byte(frame@.len(), i + 1),
    ensures
        r == frame@[11 + i] as int + frame@[12 + i] as int * 256,
{
    let p = frame.payload();
    p[i] as u16 + (p[i + 1] as u16) * 256
}

pub(crate) fn payload_i16<T: FrameBuffer>(frame: &RMWireFrameView<T>, i: usize) -> (r: i16)
    requires
        has_payload_byte(frame@.len(), i + 1),
    ensures
        r == le_i16(frame@[11 + i], frame@[12 + i]),
{
    let u = payload_u16(frame, i);
    if u < 32768 {
        u as i16
    } else {
        (u as i32 - 65536) as i16
    }
}

pub(crate) fn payload_u32<T: FrameBuffer>(frame: &RMWireFrameView<T>, i: usize) -> (r: u32)
    requires
        has_payload_byte(frame@.len(), i + 3),
    ensures
        r == frame@[11 + i] as int + frame@[12 + i] as int * 256 + frame@[13 + i] as int * 65536
            + frame@[14 + i] as int * 16777216,
{
    let p = frame.payload();
    p[i] as u32 + (p[i + 1] as u32) * 256 + (p[i + 2] as u32) * 65536 + (p[i + 3] as u32)
        * 16777216
}

pub(crate) fn set_payload_u8<T: FrameBufferMut>(frame: &mut RMWireFrameView<T>, i: usize, v: u8)
    requires
        has_payload_byte(old(frame)@.len(), i as int),
    ensures
        final(frame)@ == old(frame)@.update(11 + i, v),
{
    let ghost before = frame@;
    let p = frame.payload_mut();
    p[i] = v;
    assert(before.subrange(0, 11) + spec_payload(before).update(i as int, v) + before.subrange(
        before.len() - 2,
        before.len() as int,
    ) =~= before.update(11 + i, v));
}

pub(crate) fn set_payload_u16<T: FrameBufferMut>(
    frame: &mut RMWireFrameView<T>,
    i: usize,
    v: u16,
)
    requires
        has_payload_byte(old(frame)@.len(), i + 1),
    ensures
        final(frame)@ == old(frame)@.update(11 + i, (v % 256) as u8).update(
            12 + i,
            (v / 256) as u8,
        ),
        final(frame)@[11 + i] as int + final(frame)@[12 + i] as int * 256 == v,
{
    set_payload_u8(frame, i, (v % 256) as u8);
    set_payload_u8(frame, i + 1, (v / 256) as u8);
}

pub(crate) fn set_payload_i16<T: FrameBufferMut>(
    frame: &mut RMWireFrameView<T>,
    i: usize,
    v: i16,
)
    requires
        has_payload_byte(old(frame)@.len(), i + 1),
    ensures
        final(frame)@ == old(frame)@.update(11 + i, (i16_bits(v) % 256) as u8).update(
            12 + i,
            (i16_bits(v) / 256) as u8,
        ),
        le_i16(final(frame)@[11 + i], final(frame)@[12 + i]) == v,
{
    let bits: u16 = if v >= 0 {
        v as u16
    } else {
        (v as i32 + 65536) as u16
    };
    set_payload_u16(frame, i, bits);
}

pub(crate) fn set_payload_u32<T: FrameBufferMut>(
    frame: &mut RMWireFrameView<T>,
    i: usize,
    v: u32,
)
    requires
        has_payload_byte(old(frame)@.len(), i + 3),
    ensures
        final(frame)@ == old(frame)@.update(11 + i, (v % 256) as u8).update(
            12 + i,
            (v / 256 % 256) as u8,
        ).update(13 + i, (v / 65536 % 256) as u8).update(14 + i, (v / 16777216) as u8),
        final(frame)@[11 + i] as int + final(frame)@[12 + i] as int * 256 + final(frame)@[13
            + i] as int * 65536 + final(frame)@[14 + i] as int * 16777216 == v,
{
    set_payload_u8(frame, i, (v % 256) as u8);
    set_payload_u8(frame, i + 1, (v / 256 % 256) as u8);
    set_payload_u8(frame, i + 2, (v / 65536 % 256) as u8);
    set_payload_u8(frame, i + 3, (v / 16777216) as u8);
}

} // verus!
