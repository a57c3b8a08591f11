//! The frame layout of the wire format.
//!
//! A frame is laid out as follows (offsets from its first byte):
//! - 0: start of frame marker, `0x55`
//! - 1, 2: little-endian 10-bit length of the whole frame (the low two bits of byte 2)
//! - 3: 8-bit checksum of bytes 0..3
//! - 4: sender address; 5: receiver address
//! - 6, 7: little-endian sequence number
//! - 8: flags: bit 7 is-ack, bit 5 need-ack, bits 0..3 encryption type
//! - 9: command set; 10: command id
//! - 11 up to the last two bytes: payload
//! - last two bytes: little-endian 16-bit checksum of everything before them
//!
//! [`RMWireFrameView`] reads and writes these fields in place over a buffer
//! that it borrows or owns. Setters never touch the checksums: after editing
//! the first three bytes call [`RMWireFrameView::set_header_crc8`], and after
//! editing the rest store [`RMWireFrameView::crc16_computed`] with
//! [`RMWireFrameView::set_packet_crc16_field`].

use vstd::prelude::*;
use crate::crc::{header_crc, packet_crc, rm_s1_crc16, rm_s1_crc8};
use crate::proto::{lemma_valid_frame_scans_whole, spec_parse, ParseError};

verus! {

/// Start of frame marker.
pub const SOF: u8 = 0x55;

/// Bits of byte 2 that every frame of this protocol sets beside the length.
pub const LENGTH_HIGH_FLAGS: u8 = 0x04;

/// Size of the header, up to and including the command id.
pub const HEADER_LEN: usize = 11;

/// Size of the smallest frame: the header and the checksum, with no payload.
pub const MIN_FRAME_LEN: usize = 13;

/// Little-endian value of two bytes.
pub open spec fn le16(lo: u8, hi: u8) -> u16 {
    (lo as int + hi as int * 256) as u16
}

/// The length field of a frame held in `b`.
pub open spec fn spec_length_field(b: Seq<u8>) -> u16 {
    (b[1] as int + (b[2] % 4) as int * 256) as u16
}

/// The trailing checksum field of a frame held in `b`.
pub open spec fn spec_crc16_field(b: Seq<u8>) -> u16 {
    le16(b[b.len() - 2], b[b.len() - 1])
}

/// The payload of a frame held in `b`.
pub open spec fn spec_payload(b: Seq<u8>) -> Seq<u8> {
    b.subrange(11, b.len() - 2)
}

/// Whether `b` holds a well-formed frame: long enough, with the marker, at
/// least as long as its length field says, and with both checksums right.
pub open spec fn spec_frame_valid(b: Seq<u8>) -> bool {
    &&& b.len() >= MIN_FRAME_LEN
    &&& b[0] == SOF
    &&& b.len() >= spec_length_field(b)
    &&& b[3] == header_crc(b.subrange(0, 3))
    &&& spec_crc16_field(b) == packet_crc(b.subrange(0, b.len() - 2))
}

/// A buffer shorter than the smallest frame never holds a valid frame.
pub proof fn lemma_short_buffer_invalid(b: Seq<u8>)
    requires
        b.len() < MIN_FRAME_LEN,
    ensures
        !spec_frame_valid(b),
{
}

/// A byte buffer that a frame view can read.
pub trait FrameBuffer {
    /// The bytes that the buffer holds.
    spec fn bytes(&self) -> Seq<u8>;

    fn as_bytes(&self) -> (r: &[u8])
        ensures
            r@ == self.bytes(),
    ;
}

/// A byte buffer that a frame view can write.
pub trait FrameBufferMut: FrameBuffer {
    fn as_bytes_mut(&mut self) -> (r: &mut [u8])
        ensures
            r@ == old(self).bytes(),
            final(self).bytes() == final(r)@,
    ;
}

impl<'a> FrameBuffer for &'a [u8] {
    open spec fn bytes(&self) -> Seq<u8> {
        (**self)@
    }

    fn as_bytes(&self) -> (r: &[u8]) {
        *self
    }
}

impl<'a> FrameBuffer for &'a mut [u8] {
    open spec fn bytes(&self) -> Seq<u8> {
        (**self)@
    }

    fn as_bytes(&self) -> (r: &[u8]) {
        &**self
    }
}

impl<'a> FrameBufferMut for &'a mut [u8] {
    fn as_bytes_mut(&mut self) -> (r: &mut [u8]) {
        &mut **self
    }
}

impl FrameBuffer for Vec<u8> {
    open spec fn bytes(&self) -> Seq<u8> {
        self@
    }

    fn as_bytes(&self) -> (r: &[u8]) {
        self.as_slice()
    }
}

impl FrameBufferMut for Vec<u8> {
    fn as_bytes_mut(&mut self) -> (r: &mut [u8]) {
        self.as_mut_slice()
    }
}

impl<'a> FrameBuffer for &'a Vec<u8> {
    open spec fn bytes(&self) -> Seq<u8> {
        (**self)@
    }

    fn as_bytes(&self) -> (r: &[u8]) {
        (**self).as_slice()
    }
}

impl<const N: usize> FrameBuffer for [u8; N] {
    open spec fn bytes(&self) -> Seq<u8> {
        self@
    }

    fn as_bytes(&self) -> (r: &[u8]) {
        self.as_slice()
    }
}

impl<const N: usize> FrameBufferMut for [u8; N] {
    fn as_bytes_mut(&mut self) -> (r: &mut [u8]) {
        vstd::array::ref_mut_array_unsizing_coercion(self)
    }
}

impl<'a, const N: usize> FrameBuffer for &'a [u8; N] {
    open spec fn bytes(&self) -> Seq<u8> {
        (**self)@
    }

    fn as_bytes(&self) -> (r: &[u8]) {
        (*self).as_slice()
    }
}

impl<'a, const N: usize> FrameBuffer for &'a mut [u8; N] {
    open spec fn bytes(&self) -> Seq<u8> {
        (**self)@
    }

    fn as_bytes(&self) -> (r: &[u8]) {
        (**self).as_slice()
    }
}

impl<'a, const N: usize> FrameBufferMut for &'a mut [u8; N] {
    fn as_bytes_mut(&mut self) -> (r: &mut [u8]) {
        vstd::array::ref_mut_array_unsizing_coercion(&mut **self)
    }
}

/// Encryption applied to a frame's payload, from bits 0..3 of the flags byte.
#[allow(non_camel_case_types)]
#[derive(Debug, Clone, Copy, PartialEq, Eq, Structural)]
pub enum EncryptType {
    NO_ENC,
    AES_128_ENC,
    CUSTOM_ENC,
    XOR_ENC,
    DES_56_ENC,
    DES_112_ENC,
    AES_192_ENC,
    AES_256_ENC,
}

impl EncryptType {
    /// The wire value of the encryption type.
    pub open spec fn spec_value(self) -> u8 {
        match self {
            EncryptType::NO_ENC => 0,
            EncryptType::AES_128_ENC => 1,
            EncryptType::CUSTOM_ENC => 2,
            EncryptType::XOR_ENC => 3,
            EncryptType::DES_56_ENC => 4,
            EncryptType::DES_112_ENC => 5,
            EncryptType::AES_192_ENC => 6,
            EncryptType::AES_256_ENC => 7,
        }
    }

    /// The encryption type with wire value `v`, if there is one.
    pub open spec fn spec_try_from_value(v: u8) -> Option<EncryptType> {
        if v == 0 {
            Some(EncryptType::NO_ENC)
        } else if v == 1 {
            Some(EncryptType::AES_128_ENC)
        } else if v == 2 {
            Some(EncryptType::CUSTOM_ENC)
        } else if v == 3 {
            Some(EncryptType::XOR_ENC)
        } else if v == 4 {
            Some(EncryptType::DES_56_ENC)
        } else if v == 5 {
            Some(EncryptType::DES_112_ENC)
        } else if v == 6 {
            Some(EncryptType::AES_192_ENC)
        } else if v == 7 {
            Some(EncryptType::AES_256_ENC)
        } else {
            None
        }
    }

    pub fn value(self) -> (r: u8)
        ensures
            r == self.spec_value(),
            r < 8,
    {
        match self {
            EncryptType::NO_ENC => 0,
            EncryptType::AES_128_ENC => 1,
            EncryptType::CUSTOM_ENC => 2,
            EncryptType::XOR_ENC => 3,
            EncryptType::DES_56_ENC => 4,
            EncryptType::DES_112_ENC => 5,
            EncryptType::AES_192_ENC => 6,
            EncryptType::AES_256_ENC => 7,
        }
    }

    pub fn try_from_value(v: u8) -> (r: Option<EncryptType>)
        ensures
            r == Self::spec_try_from_value(v),
            r is Some <==> v < 8,
            r is Some ==> r->0.spec_value() == v,
    {
        if v == 0 {
            Some(EncryptType::NO_ENC)
        } else if v == 1 {
            Some(EncryptType::AES_128_ENC)
        } else if v == 2 {
            Some(EncryptType::CUSTOM_ENC)
        } else if v == 3 {
            Some(EncryptType::XOR_ENC)
        } else if v == 4 {
            Some(EncryptType::DES_56_ENC)
        } else if v == 5 {
            Some(EncryptType::DES_112_ENC)
        } else if v == 6 {
            Some(EncryptType::AES_192_ENC)
        } else if v == 7 {
            Some(EncryptType::AES_256_ENC)
        } else {
            None
        }
    }
}

/// The encryption type held in a flags byte.
pub open spec fn spec_encrypt_type(flags: u8) -> EncryptType {
    EncryptType::spec_try_from_value(flags % 8)->0
}

/// The flags byte with the is-ack bit set to `on`.
pub open spec fn spec_with_ack(flags: u8, on: bool) -> u8 {
    if on {
        flags | 0x80
    } else {
        flags & 0x7F
    }
}

/// The flags byte with the need-ack bit set to `on`.
pub open spec fn spec_with_need_ack(flags: u8, on: bool) -> u8 {
    if on {
        flags | 0x20
    } else {
        flags & 0xDF
    }
}

/// The flags byte with the encryption type bits set to `e`.
pub open spec fn spec_with_encrypt_type(flags: u8, e: EncryptType) -> u8 {
    (flags & 0xF8) | e.spec_value()
}

/// `b` with `len` stored as its length field; the other bits of byte 2 are kept.
pub open spec fn spec_with_length(b: Seq<u8>, len: u16) -> Seq<u8> {
    b.update(1, (len % 256) as u8).update(2, ((b[2] & 0xFC) | ((len / 256) as u8)) as u8)
}

/// A view of a frame over a byte buffer.
///
/// The view reads and writes the documented offsets of the buffer; it checks
/// nothing on its own. Call [`RMWireFrameView::is_valid`] before trusting a
/// buffer that came from outside.
#[derive(Clone, PartialEq, Eq)]
pub struct RMWireFrameView<T> {
    buf: T,
}

impl<T: FrameBuffer> View for RMWireFrameView<T> {
    type V = Seq<u8>;

    closed spec fn view(&self) -> Seq<u8> {
        self.buf.bytes()
    }
}

impl<T: FrameBuffer> RMWireFrameView<T> {
    pub fn new(buf: T) -> (r: Self)
        ensures
            r@ == buf.bytes(),
    {
        RMWireFrameView { buf }
    }

    /// The number of bytes in the buffer.
    pub fn len(&self) -> (r: usize)
        ensures
            r == self@.len(),
    {
        self.buf.as_bytes().len()
    }

    /// Gives the buffer back.
    pub fn into_inner(self) -> (r: T)
        ensures
            r.bytes() == self@,
    {
        self.buf
    }

    /// Whether the buffer holds a well-formed frame.
    pub fn is_valid(&self) -> (r: bool)
        ensures
            r == spec_frame_valid(self@),
    {
        let buffer = self.buf.as_bytes();
        if buffer.len() < MIN_FRAME_LEN {
            return false;
        }
        if buffer[0] != SOF {
            return false;
        }
        if buffer.len() < self.packet_length_field() as usize {
            return false;
        }
        if self.header_crc8() != self.crc8_computed() {
            return false;
        }
        if self.packet_crc16_field() != self.crc16_computed() {
            return false;
        }
        true
    }

    pub fn header_crc8(&self) -> (r: u8)
        requires
            self@.len() > 3,
        ensures
            r == self@[3],
    {
        self.buf.as_bytes()[3]
    }

    pub fn sender_id(&self) -> (r: u8)
        requires
            self@.len() > 4,
        ensures
            r == self@[4],
    {
        self.buf.as_bytes()[4]
    }

    pub fn receiver_id(&self) -> (r: u8)
        requires
            self@.len() > 5,
        ensures
            r == self@[5],
    {
        self.buf.as_bytes()[5]
    }

    pub fn packet_length_field(&self) -> (r: u16)
        requires
            self@.len() > 2,
        ensures
            r == spec_length_field(self@),
            r < 1024,
    {
        let buffer = self.buf.as_bytes();
        buffer[1] as u16 + ((buffer[2] % 4) as u16) * 256
    }

    pub fn sequence_number(&self) -> (r: u16)
        requires
            self@.len() > 7,
        ensures
            r == le16(self@[6], self@[7]),
    {
        let buffer = self.buf.as_bytes();
        buffer[6] as u16 + (buffer[7] as u16) * 256
    }

    pub fn is_ack(&self) -> (r: bool)
        requires
            self@.len() > 8,
        ensures
            r == (self@[8] & 0x80 != 0),
    {
        self.buf.as_bytes()[8] & 0x80 != 0
    }

    pub fn need_ack(&self) -> (r: bool)
        requires
            self@.len() > 8,
        ensures
            r == (self@[8] & 0x20 != 0),
    {
        self.buf.as_bytes()[8] & 0x20 != 0
    }

    pub fn encrypt_type(&self) -> (r: EncryptType)
        requires
            self@.len() > 8,
        ensures
            r == spec_encrypt_type(self@[8]),
    {
        match EncryptType::try_from_value(self.buf.as_bytes()[8] % 8) {
            Some(e) => e,
            None => EncryptType::NO_ENC,
        }
    }

    pub fn cmd_set(&self) -> (r: u8)
        requires
            self@.len() > 9,
        ensures
            r == self@[9],
    {
        self.buf.as_bytes()[9]
    }

    pub fn cmd_id(&self) -> (r: u8)
        requires
            self@.len() > 10,
        ensures
            r == self@[10],
    {
        self.buf.as_bytes()[10]
    }

    pub fn payload(&self) -> (r: &[u8])
        requires
            self@.len() >= MIN_FRAME_LEN,
        ensures
            r@ == spec_payload(self@),
    {
        let buffer = self.buf.as_bytes();
        &buffer[HEADER_LEN..buffer.len() - 2]
    }

    pub fn packet_crc16_field(&self) -> (r: u16)
        requires
            self@.len() >= 2,
        ensures
            r == spec_crc16_field(self@),
    {
        let buffer = self.buf.as_bytes();
        let n = buffer.len();
        buffer[n - 2] as u16 + (buffer[n - 1] as u16) * 256
    }

    /// The frame checksum of everything before the last two bytes.
    pub fn crc16_computed(&self) -> (r: u16)
        requires
            self@.len() >= 2,
        ensures
            r == packet_crc(self@.subrange(0, self@.len() - 2)),
    {
        let buffer = self.buf.as_bytes();
        rm_s1_crc16(&buffer[0..buffer.len() - 2])
    }

    /// The header checksum of the first three bytes.
    pub fn crc8_computed(&self) -> (r: u8)
        requires
            self@.len() >= 3,
        ensures
            r == header_crc(self@.subrange(0, 3)),
    {
        let buffer = self.buf.as_bytes();
        rm_s1_crc8(&buffer[0..3])
    }
}

impl<T: FrameBufferMut> RMWireFrameView<T> {
    pub fn set_sender_id(&mut self, sender_id: u8)
        requires
            old(self)@.len() > 4,
        ensures
            final(self)@ == old(self)@.update(4, sender_id),
    {
        let buffer = self.buf.as_bytes_mut();
        buffer[4] = sender_id;
    }

    pub fn set_receiver_id(&mut self, receiver_id: u8)
        requires
            old(self)@.len() > 5,
        ensures
            final(self)@ == old(self)@.update(5, receiver_id),
    {
        let buffer = self.buf.as_bytes_mut();
        buffer[5] = receiver_id;
    }

    /// Stores `length` in the length field and keeps the upper six bits of byte 2.
    pub fn set_packet_length_field(&mut self, length: u16)
        requires
            old(self)@.len() > 2,
            length < 1024,
        ensures
            final(self)@ == spec_with_length(old(self)@, length),
    {
        let buffer = self.buf.as_bytes_mut();
        buffer[1] = (length % 256) as u8;
        buffer[2] = (buffer[2] & 0xFC) | ((length / 256) as u8);
    }

    pub fn set_sequence_number(&mut self, sequence_number: u16)
        requires
            old(self)@.len() > 7,
        ensures
            final(self)@ == old(self)@.update(6, (sequence_number % 256) as u8).update(
                7,
                (sequence_number / 256) as u8,
            ),
    {
        let buffer = self.buf.as_bytes_mut();
        buffer[6] = (sequence_number % 256) as u8;
        buffer[7] = (sequence_number / 256) as u8;
    }

    pub fn set_is_ack(&mut self, is_ack: bool)
        requires
            old(self)@.len() > 8,
        ensures
            final(self)@ == old(self)@.update(8, spec_with_ack(old(self)@[8], is_ack)),
    {
        let buffer = self.buf.as_bytes_mut();
        if is_ack {
            buffer[8] = buffer[8] | 0x80;
        } else {
            buffer[8] = buffer[8] & 0x7F;
        }
    }

    pub fn set_need_ack(&mut self, need_ack: bool)
        requires
            old(self)@.len() > 8,
        ensures
            final(self)@ == old(self)@.update(8, spec_with_need_ack(old(self)@[8], need_ack)),
    {
        let buffer = self.buf.as_bytes_mut();
        if need_ack {
            buffer[8] = buffer[8] | 0x20;
        } else {
            buffer[8] = buffer[8] & 0xDF;
        }
    }

    pub fn set_encrypt_type(&mut self, encrypt_type: EncryptType)
        requires
            old(self)@.len() > 8,
        ensures
            final(self)@ == old(self)@.update(
                8,
                spec_with_encrypt_type(old(self)@[8], encrypt_type),
            ),
    {
        let buffer = self.buf.as_bytes_mut();
        buffer[8] = (buffer[8] & 0xF8) | encrypt_type.value();
    }

    pub fn set_cmd_set(&mut self, cmd_set: u8)
        requires
            old(self)@.len() > 9,
        ensures
            final(self)@ == old(self)@.update(9, cmd_set),
    {
        let buffer = self.buf.as_bytes_mut();
        buffer[9] = cmd_set;
    }

    pub fn set_cmd_id(&mut self, cmd_id: u8)
        requires
            old(self)@.len() > 10,
        ensures
            final(self)@ == old(self)@.update(10, cmd_id),
    {
        let buffer = self.buf.as_bytes_mut();
        buffer[10] = cmd_id;
    }

    /// Copies `payload` to the bytes from offset 11 on.
    pub fn set_payload(&mut self, payload: &[u8])
        requires
            HEADER_LEN + payload@.len() <= old(self)@.len(),
        ensures
            final(self)@ == old(self)@.subrange(0, 11) + payload@ + old(self)@.subrange(
                11 + payload@.len() as int,
                old(self)@.len() as int,
            ),
    {
        let buffer = self.buf.as_bytes_mut();
        let ghost start = buffer@;
        let n = buffer.len();
        let mut i: usize = 0;
        while i < payload.len()
            invariant
                i <= payload@.len(),
                n == start.len(),
                HEADER_LEN + payload@.len() <= start.len(),
                buffer@.len() == start.len(),
                forall|k: int| 0 <= k < 11 ==> buffer@[k] == start[k],
                forall|k: int| 0 <= k < i ==> buffer@[11 + k] == payload@[k],
                forall|k: int| 11 + i <= k < start.len() ==> buffer@[k] == start[k],
            decreases payload.len() - i,
        {
            buffer[HEADER_LEN + i] = payload[i];
            i = i + 1;
        }
        assert(buffer@ =~= start.subrange(0, 11) + payload@ + start.subrange(
            11 + payload@.len() as int,
            start.len() as int,
        ));
    }

    pub fn set_packet_crc16_field(&mut self, packet_crc16_field: u16)
        requires
            old(self)@.len() >= 2,
        ensures
            final(self)@ == old(self)@.update(
                old(self)@.len() - 2,
                (packet_crc16_field % 256) as u8,
            ).update(old(self)@.len() - 1, (packet_crc16_field / 256) as u8),
    {
        let buffer = self.buf.as_bytes_mut();
        let n = buffer.len();
        buffer[n - 2] = (packet_crc16_field % 256) as u8;
        buffer[n - 1] = (packet_crc16_field / 256) as u8;
    }

    /// Stores the header checksum of the first three bytes in byte 3.
    pub fn set_header_crc8(&mut self)
        requires
            old(self)@.len() > 3,
        ensures
            final(self)@ == old(self)@.update(3, header_crc(old(self)@.subrange(0, 3))),
    {
        let buffer = self.buf.as_bytes_mut();
        let crc = rm_s1_crc8(&buffer[0..3]);
        buffer[3] = crc;
    }

    /// The payload bytes, for writing in place.
    pub fn payload_mut(&mut self) -> (r: &mut [u8])
        requires
            old(self)@.len() >= MIN_FRAME_LEN,
        ensures
            r@ == spec_payload(old(self)@),
            final(self)@ == old(self)@.subrange(0, 11) + final(r)@ + old(self)@.subrange(
                old(self)@.len() - 2,
                old(self)@.len() as int,
            ),
    {
        let buffer = self.buf.as_bytes_mut();
        let n = buffer.len();
        let (head, rest) = buffer.split_at_mut(HEADER_LEN);
        let (body, tail) = rest.split_at_mut(n - 2 - HEADER_LEN);
        body
    }
}

/// Builds a frame with the given header fields and payload, its length field
/// (with the bits that go beside it in byte 2) and both checksums filled in.
pub fn build_frame(
    sender_id: u8,
    receiver_id: u8,
    sequence_number: u16,
    is_ack: bool,
    need_ack: bool,
    encrypt_type: EncryptType,
    cmd_set: u8,
    cmd_id: u8,
    payload: &[u8],
) -> (r: Vec<u8>)
    requires
        payload@.len() + MIN_FRAME_LEN < 1024,
    ensures
        r@.len() == payload@.len() + MIN_FRAME_LEN,
        spec_frame_valid(r@),
        spec_length_field(r@) == r@.len(),
        spec_parse(r@) == Ok::<(int, int), ParseError>((0, r@.len() as int)),
        r@[4] == sender_id,
        r@[5] == receiver_id,
        le16(r@[6], r@[7]) == sequence_number,
        (r@[8] & 0x80 != 0) == is_ack,
        (r@[8] & 0x20 != 0) == need_ack,
        spec_encrypt_type(r@[8]) == encrypt_type,
        r@[9] == cmd_set,
        r@[10] == cmd_id,
        spec_payload(r@) == payload@,
{
    let n: usize = payload.len() + MIN_FRAME_LEN;
    let mut buf: Vec<u8> = vec![0u8; n];
    buf.set(0, SOF);
    buf.set(2, LENGTH_HIGH_FLAGS);
    let mut frame = RMWireFrameView::new(buf);
    frame.set_packet_length_field(n as u16);
    let ghost with_length = frame@;
    frame.set_header_crc8();
    let ghost with_header = frame@;
    assert(with_header.subrange(0, 3) =~= with_length.subrange(0, 3));
    frame.set_sender_id(sender_id);
    frame.set_receiver_id(receiver_id);
    frame.set_sequence_number(sequence_number);
    frame.set_is_ack(is_ack);
    frame.set_need_ack(need_ack);
    frame.set_encrypt_type(encrypt_type);
    frame.set_cmd_set(cmd_set);
    frame.set_cmd_id(cmd_id);
    frame.set_payload(payload);
    let ghost before_crc = frame@;
    let crc = frame.crc16_computed();
    frame.set_packet_crc16_field(crc);
    let r = frame.into_inner();
    proof {
        let b = r@;
        let hi = (n / 256) as u8;
        assert(hi < 4 ==> ((0x04u8 & 0xFCu8) | hi) % 4 == hi) by (bit_vector);
        assert(b[1] == (n % 256) as u8);
        assert(b[2] == (0x04u8 & 0xFCu8) | hi);
        assert(spec_length_field(b) == n);
        assert(b.subrange(0, 3) =~= before_crc.subrange(0, 3));
        assert(b.subrange(0, b.len() - 2) =~= before_crc.subrange(0, b.len() - 2));
        assert(b.subrange(0, 3) =~= with_header.subrange(0, 3));
        assert(b[3] == with_header[3]);
        assert(b[3] == header_crc(b.subrange(0, 3)));
        let f: u8 = 0;
        let v = encrypt_type.spec_value();
        assert(v < 8 ==> {
            &&& ((((f | 0x80u8) | 0x20u8) & 0xF8u8) | v) & 0x80u8 != 0
            &&& ((((f | 0x80u8) | 0x20u8) & 0xF8u8) | v) & 0x20u8 != 0
            &&& ((((f | 0x80u8) | 0x20u8) & 0xF8u8) | v) % 8 == v
            &&& ((((f | 0x80u8) & 0xDFu8) & 0xF8u8) | v) & 0x80u8 != 0
            &&& ((((f | 0x80u8) & 0xDFu8) & 0xF8u8) | v) & 0x20u8 == 0
            &&& ((((f | 0x80u8) & 0xDFu8) & 0xF8u8) | v) % 8 == v
            &&& ((((f & 0x7Fu8) | 0x20u8) & 0xF8u8) | v) & 0x80u8 == 0
            &&& ((((f & 0x7Fu8) | 0x20u8) & 0xF8u8) | v) & 0x20u8 != 0
            &&& ((((f & 0x7Fu8) | 0x20u8) & 0xF8u8) | v) % 8 == v
            &&& ((((f & 0x7Fu8) & 0xDFu8) & 0xF8u8) | v) & 0x80u8 == 0
            &&& ((((f & 0x7Fu8) & 0xDFu8) & 0xF8u8) | v) & 0x20u8 == 0
            &&& ((((f & 0x7Fu8) & 0xDFu8) & 0xF8u8) | v) % 8 == v
        }) by (bit_vector);
        assert(spec_payload(b) =~= payload@);
        lemma_valid_frame_scans_whole(b);
    }
    r
}

} // verus!
