//! Views over the payloads of the publish/subscribe protocol.

use vstd::prelude::*;
use crate::commands::le_u16_at;
use crate::vbus::topics::DdsUid;
use crate::wire::{spec_payload, FrameBuffer, RMWireFrameView, MIN_FRAME_LEN};

verus! {

/// Relies on bytemuck::try_cast_slice from bytes to 8-byte arrays: a slice
/// whose length is a multiple of 8 is read as that many arrays, in order;
/// any other length is refused.
#[verifier::external_body]
fn cast_to_uids(b: &[u8]) -> (r: Option<&[[u8; 8]]>)
    ensures
        r is Some <==> b@.len() % 8 == 0,
        r is Some ==> r->0@.len() == b@.len() / 8,
        r is Some ==> forall|i: int, j: int|
            #![trigger r->0@[i]@[j]]
            0 <= i < r->0@.len() && 0 <= j < 8 ==> r->0@[i]@[j] == b@[8 * i + j],
{
    bytemuck::try_cast_slice(b).ok()
}

/// A pushed message: a sub-mode byte, a subscription id, then the data. A
/// nonzero sub-mode marks an acknowledgement of an earlier push.
pub struct RMTopicView<T> {
    pub packet: RMWireFrameView<T>,
}

impl<T: FrameBuffer> RMTopicView<T> {
    pub fn new(packet: RMWireFrameView<T>) -> (r: Self)
        ensures
            r.packet@ == packet@,
    {
        RMTopicView { packet }
    }

    pub fn sub_mode(&self) -> (r: u8)
        requires
            self.packet@.len() >= MIN_FRAME_LEN + 1,
        ensures
            r == spec_payload(self.packet@)[0],
    {
        self.packet.payload()[0]
    }

    pub fn sub_id(&self) -> (r: u8)
        requires
            self.packet@.len() >= MIN_FRAME_LEN + 2,
        ensures
            r == spec_payload(self.packet@)[1],
    {
        self.packet.payload()[1]
    }

    /// The pushed data: the payload after its first two bytes.
    pub fn data(&self) -> (r: &[u8])
        requires
            self.packet@.len() >= MIN_FRAME_LEN + 2,
        ensures
            r@ == spec_payload(self.packet@).subrange(2, spec_payload(self.packet@).len() as int),
    {
        let p = self.packet.payload();
        &p[2..p.len()]
    }
}

/// A subscription request: the requester's node id and stream id, a flags
/// byte (bit 0: timestamps wanted, bit 1: stop when disconnected), a sub-mode
/// byte, the number of topics, the 8-byte topic ids, and a little-endian
/// 16-bit frequency in Hz.
pub struct RMAddSubView<T> {
    pub packet: RMWireFrameView<T>,
}

/// The bytes that the topic ids of a subscription request take: the payload
/// but its first five and last two bytes.
pub open spec fn spec_topic_bytes(payload: Seq<u8>) -> Seq<u8> {
    payload.subrange(5, payload.len() - 2)
}

impl<T: FrameBuffer> RMAddSubView<T> {
    pub fn new(packet: RMWireFrameView<T>) -> (r: Self)
        ensures
            r.packet@ == packet@,
    {
        RMAddSubView { packet }
    }

    pub fn sub_node_id(&self) -> (r: u8)
        requires
            self.packet@.len() >= MIN_FRAME_LEN + 1,
        ensures
            r == spec_payload(self.packet@)[0],
    {
        self.packet.payload()[0]
    }

    pub fn sub_stream_id(&self) -> (r: u8)
        requires
            self.packet@.len() >= MIN_FRAME_LEN + 2,
        ensures
            r == spec_payload(self.packet@)[1],
    {
        self.packet.payload()[1]
    }

    pub fn timestamp_requested(&self) -> (r: bool)
        requires
            self.packet@.len() >= MIN_FRAME_LEN + 3,
        ensures
            r == (spec_payload(self.packet@)[2] & 1 != 0),
    {
        self.packet.payload()[2] & 1 != 0
    }

    pub fn stop_when_disconnected(&self) -> (r: bool)
        requires
            self.packet@.len() >= MIN_FRAME_LEN + 3,
        ensures
            r == (spec_payload(self.packet@)[2] & 2 != 0),
    {
        self.packet.payload()[2] & 2 != 0
    }

    pub fn sub_mode(&self) -> (r: u8)
        requires
            self.packet@.len() >= MIN_FRAME_LEN + 4,
        ensures
            r == spec_payload(self.packet@)[3],
    {
        self.packet.payload()[3]
    }

    pub fn num_topics(&self) -> (r: u8)
        requires
            self.packet@.len() >= MIN_FRAME_LEN + 5,
        ensures
            r == spec_payload(self.packet@)[4],
    {
        self.packet.payload()[4]
    }

    /// The topic ids, or `None` when the bytes between the fixed fields are
    /// not a whole number of ids.
    pub fn topics(&self) -> (r: Option<Vec<DdsUid>>)
        requires
            self.packet@.len() >= MIN_FRAME_LEN + 7,
        ensures
            ({
                let t = spec_topic_bytes(spec_payload(self.packet@));
                &&& r is Some <==> t.len() % 8 == 0
                &&& r is Some ==> r->0@.len() == t.len() / 8
                &&& r is Some ==> forall|i: int|
                    0 <= i < r->0@.len() ==> (#[trigger] r->0@[i]).uid@ =~= t.subrange(
                        8 * i,
                        8 * i + 8,
                    )
            }),
    {
        let p = self.packet.payload();
        let bytes = &p[5..p.len() - 2];
        match cast_to_uids(bytes) {
            Some(ids) => {
                let mut out: Vec<DdsUid> = Vec::new();
                let mut i: usize = 0;
                while i < ids.len()
                    invariant
                        i <= ids@.len(),
                        ids@.len() == bytes@.len() / 8,
                        out@.len() == i,
                        forall|a: int, j: int|
                            #![trigger ids@[a]@[j]]
                            0 <= a < ids@.len() && 0 <= j < 8 ==> ids@[a]@[j] == bytes@[8 * a + j],
                        forall|a: int|
                            0 <= a < i ==> (#[trigger] out@[a]).uid@ =~= bytes@.subrange(
                                8 * a,
                                8 * a + 8,
                            ),
                    decreases ids.len() - i,
                {
                    let uid: [u8; 8] = ids[i];
                    out.push(DdsUid { uid });
                    assert(out@[i as int].uid@ =~= bytes@.subrange(8 * i, 8 * i + 8));
                    i = i + 1;
                }
                Some(out)
            },
            None => None,
        }
    }

    /// The requested frequency, in Hz.
    pub fn frequency(&self) -> (r: u16)
        requires
            self.packet@.len() >= MIN_FRAME_LEN + 2,
        ensures
            r == le_u16_at(spec_payload(self.packet@), spec_payload(self.packet@).len() - 2),
    {
        let p = self.packet.payload();
        let n = p.len();
        p[n - 2] as u16 + (p[n - 1] as u16) * 256
    }
}

} // verus!
