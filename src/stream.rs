//! Per-channel stream reassembly.
//!
//! Each channel (a CAN arbitration id, say) delivers its bytes in order but
//! in small pieces. A [`ChannelState`] keeps the bytes of one channel that do
//! not yet form a frame, runs the scanner whenever progress is possible, and
//! applies the recovery that each scan outcome calls for. A
//! [`StreamReassembler`] keeps one such state per channel id.

use vstd::prelude::*;
use std::collections::HashMap;
use crate::proto::{
    header_ok_at, lemma_parse_extend, lemma_parse_skip, lemma_sof_index, lemma_sof_index_unique,
    length_at, parse_frame, sof_index, spec_parse, ParseError,
};

verus! {

broadcast use vstd::std_specs::hash::group_hash_axioms;

/// What draining `b` gives: the frames taken from its front, one after the
/// other, and the bytes left over once the scanner asks for more data or
/// finds no marker.
pub open spec fn spec_drain(b: Seq<u8>) -> (Seq<Seq<u8>>, Seq<u8>)
    decreases b.len(),
{
    match spec_parse(b) {
        Ok((s, e)) => {
            if 0 < e <= b.len() {
                let rest = spec_drain(b.subrange(e, b.len() as int));
                (seq![b.subrange(s, e)] + rest.0, rest.1)
            } else {
                (Seq::empty(), b)
            }
        },
        Err(ParseError::NeedMoreData(_, c)) => (Seq::empty(), b.subrange(c as int, b.len() as int)),
        Err(ParseError::NoStartOfFrame) => (Seq::empty(), Seq::empty()),
        Err(ParseError::InvalidHeaderCRC(c)) => {
            if 0 < c <= b.len() {
                spec_drain(b.subrange(c as int, b.len() as int))
            } else {
                (Seq::empty(), b)
            }
        },
        Err(ParseError::InvalidPacketCRC(c)) => {
            if 0 < c <= b.len() {
                spec_drain(b.subrange(c as int, b.len() as int))
            } else {
                (Seq::empty(), b)
            }
        },
    }
}

/// The hint that draining `b` leaves: when the scanner last asked for more
/// data, the buffer length below which scanning again is futile.
pub open spec fn spec_drain_hint(b: Seq<u8>) -> Option<usize>
    decreases b.len(),
{
    match spec_parse(b) {
        Ok((s, e)) => {
            if 0 < e <= b.len() {
                spec_drain_hint(b.subrange(e, b.len() as int))
            } else {
                None
            }
        },
        Err(ParseError::NeedMoreData(m, c)) => Some((m + (b.len() - c)) as usize),
        Err(ParseError::NoStartOfFrame) => None,
        Err(ParseError::InvalidHeaderCRC(c)) => {
            if 0 < c <= b.len() {
                spec_drain_hint(b.subrange(c as int, b.len() as int))
            } else {
                None
            }
        },
        Err(ParseError::InvalidPacketCRC(c)) => {
            if 0 < c <= b.len() {
                spec_drain_hint(b.subrange(c as int, b.len() as int))
            } else {
                None
            }
        },
    }
}

/// Whether no extension of `b` shorter than `n` bytes in all can yield a
/// frame or drop a byte: scanning it only asks for more data.
pub open spec fn spec_waits_below(b: Seq<u8>, n: int) -> bool {
    forall|e: Seq<u8>|
        b.len() + e.len() < n ==> #[trigger] spec_drain(b + e) == (Seq::<Seq<u8>>::empty(), b + e)
}

/// The bytes of each frame in `frames`.
pub open spec fn frames_view(frames: Seq<Vec<u8>>) -> Seq<Seq<u8>> {
    frames.map_values(|f: Vec<u8>| f@)
}

/// The bounds that each outcome of the scanner keeps to.
pub proof fn lemma_parse_bounds(b: Seq<u8>)
    requires
        b.len() <= usize::MAX,
    ensures
        match spec_parse(b) {
            Ok((s, e)) => 0 <= s && s + 2 <= e <= b.len() && b[s] == 0x55u8,
            Err(ParseError::NeedMoreData(m, c)) => {
                &&& c < b.len()
                &&& b[c as int] == 0x55u8
                &&& m >= 1
                &&& m + (b.len() - c) <= 1023
                &&& forall|j: int| 0 <= j < c ==> b[j] != 0x55u8
            },
            Err(ParseError::NoStartOfFrame) => forall|j: int| 0 <= j < b.len() ==> b[j] != 0x55u8,
            Err(ParseError::InvalidHeaderCRC(c)) => 3 <= c < b.len(),
            Err(ParseError::InvalidPacketCRC(c)) => 3 <= c < b.len(),
        },
{
    lemma_sof_index(b);
}

/// After the scanner asked for `m` more bytes and the `c` bytes before the
/// marker are dropped, the rest only waits until it holds `m` more bytes.
pub proof fn lemma_need_more_waits(b: Seq<u8>, m: usize, c: usize)
    requires
        b.len() <= usize::MAX,
        spec_parse(b) == Err::<(int, int), ParseError>(ParseError::NeedMoreData(m, c)),
    ensures
        spec_waits_below(b.subrange(c as int, b.len() as int), m + (b.len() - c)),
{
    lemma_parse_bounds(b);
    lemma_sof_index(b);
    let r = b.subrange(c as int, b.len() as int);
    assert forall|e: Seq<u8>| r.len() + e.len() < m + (b.len() - c) implies #[trigger] spec_drain(
        r + e,
    ) == (Seq::<Seq<u8>>::empty(), r + e) by {
        let x = r + e;
        lemma_sof_index_unique(x, 0);
        if b.len() - c >= 4 {
            assert(x.subrange(0, 3) =~= b.subrange(c as int, c + 3));
            assert(header_ok_at(x, 0) == header_ok_at(b, c as int));
            assert(length_at(x, 0) == length_at(b, c as int));
        }
        assert(spec_parse(x) == Err::<(int, int), ParseError>(
            ParseError::NeedMoreData((m - e.len()) as usize, 0),
        ));
        assert(x.subrange(0, x.len() as int) =~= x);
    }
}

/// Bytes without a marker in front of a buffer change nothing that
/// draining it gives.
pub proof fn lemma_drain_skip(p: Seq<u8>, b: Seq<u8>)
    requires
        p.len() + b.len() <= usize::MAX,
        forall|j: int| 0 <= j < p.len() ==> p[j] != 0x55u8,
    ensures
        spec_drain(p + b) == spec_drain(b),
{
    let x = p + b;
    let n = p.len() as int;
    lemma_parse_skip(p, b);
    lemma_parse_bounds(b);
    match spec_parse(b) {
        Ok((s, e)) => {
            assert(x.subrange(n + s, n + e) =~= b.subrange(s, e));
            assert(x.subrange(n + e, x.len() as int) =~= b.subrange(e, b.len() as int));
        },
        Err(ParseError::NeedMoreData(m, c)) => {
            assert(x.subrange(n + c, x.len() as int) =~= b.subrange(c as int, b.len() as int));
        },
        Err(ParseError::NoStartOfFrame) => {},
        Err(ParseError::InvalidHeaderCRC(c)) => {
            assert(x.subrange(n + c, x.len() as int) =~= b.subrange(c as int, b.len() as int));
        },
        Err(ParseError::InvalidPacketCRC(c)) => {
            assert(x.subrange(n + c, x.len() as int) =~= b.subrange(c as int, b.len() as int));
        },
    }
}

/// Draining a stream in two pieces gives what draining it whole gives: the
/// frames of the first piece, then those of what it left over followed by
/// the second piece.
pub proof fn lemma_drain_split(b: Seq<u8>, e: Seq<u8>)
    requires
        b.len() + e.len() <= usize::MAX,
    ensures
        spec_drain(b + e) == ({
            let first = spec_drain(b);
            let second = spec_drain(first.1 + e);
            (first.0 + second.0, second.1)
        }),
    decreases b.len(),
{
    let x = b + e;
    lemma_parse_bounds(b);
    match spec_parse(b) {
        Ok((s, t)) => {
            lemma_parse_extend(b, e);
            let rest = b.subrange(t, b.len() as int);
            assert(x.subrange(s, t) =~= b.subrange(s, t));
            assert(x.subrange(t, x.len() as int) =~= rest + e);
            lemma_drain_split(rest, e);
            let first = spec_drain(rest);
            let second = spec_drain(first.1 + e);
            assert(seq![b.subrange(s, t)] + (first.0 + second.0) =~= (seq![b.subrange(s, t)]
                + first.0) + second.0);
        },
        Err(ParseError::NeedMoreData(m, c)) => {
            let head = b.subrange(0, c as int);
            let rest = b.subrange(c as int, b.len() as int);
            assert(x =~= head + (rest + e));
            lemma_drain_skip(head, rest + e);
            assert(Seq::<Seq<u8>>::empty() + spec_drain(rest + e).0 =~= spec_drain(rest + e).0);
        },
        Err(ParseError::NoStartOfFrame) => {
            assert(x =~= b + (Seq::<u8>::empty() + e));
            lemma_drain_skip(b, Seq::<u8>::empty() + e);
            assert(Seq::<Seq<u8>>::empty() + spec_drain(Seq::<u8>::empty() + e).0 =~= spec_drain(
                Seq::<u8>::empty() + e,
            ).0);
        },
        Err(ParseError::InvalidHeaderCRC(c)) => {
            lemma_parse_extend(b, e);
            let rest = b.subrange(c as int, b.len() as int);
            assert(x.subrange(c as int, x.len() as int) =~= rest + e);
            lemma_drain_split(rest, e);
        },
        Err(ParseError::InvalidPacketCRC(c)) => {
            lemma_parse_extend(b, e);
            let rest = b.subrange(c as int, b.len() as int);
            assert(x.subrange(c as int, x.len() as int) =~= rest + e);
            lemma_drain_split(rest, e);
        },
    }
}

/// What a channel holding `b` yields and keeps when `chunks` arrive one
/// after the other.
pub open spec fn spec_feed_all(b: Seq<u8>, chunks: Seq<Seq<u8>>) -> (Seq<Seq<u8>>, Seq<u8>)
    decreases chunks.len(),
{
    if chunks.len() == 0 {
        (Seq::empty(), b)
    } else {
        let step = spec_drain(b + chunks[0]);
        let later = spec_feed_all(step.1, chunks.drop_first());
        (step.0 + later.0, later.1)
    }
}

/// What draining leaves is the start of an incomplete frame, or nothing:
/// draining it again takes nothing more.
pub proof fn lemma_drain_rest_settled(b: Seq<u8>)
    requires
        b.len() <= usize::MAX,
    ensures
        spec_drain(b).1.len() <= b.len(),
        spec_drain(b).1.len() < 1024,
        spec_drain_hint(b) is Some ==> spec_drain_hint(b)->0 <= 1023,
        spec_drain(spec_drain(b).1) == (Seq::<Seq<u8>>::empty(), spec_drain(b).1),
    decreases b.len(),
{
    lemma_parse_bounds(b);
    match spec_parse(b) {
        Ok((s, t)) => {
            lemma_drain_rest_settled(b.subrange(t, b.len() as int));
        },
        Err(ParseError::NeedMoreData(m, c)) => {
            let head = b.subrange(0, c as int);
            let rest = b.subrange(c as int, b.len() as int);
            assert(b =~= head + rest);
            lemma_parse_skip(head, rest);
            lemma_parse_bounds(rest);
            assert(rest.subrange(0, rest.len() as int) =~= rest);
        },
        Err(ParseError::NoStartOfFrame) => {
            lemma_sof_index_unique(Seq::<u8>::empty(), 0);
        },
        Err(ParseError::InvalidHeaderCRC(c)) => {
            lemma_drain_rest_settled(b.subrange(c as int, b.len() as int));
        },
        Err(ParseError::InvalidPacketCRC(c)) => {
            lemma_drain_rest_settled(b.subrange(c as int, b.len() as int));
        },
    }
}

/// However a stream is cut into chunks, a channel that holds only the start
/// of an incomplete frame yields the same frames and keeps the same bytes as
/// when the whole stream arrives at once.
pub proof fn lemma_chunking_irrelevant(b: Seq<u8>, chunks: Seq<Seq<u8>>)
    requires
        b.len() + chunks.flatten().len() <= usize::MAX,
        spec_drain(b) == (Seq::<Seq<u8>>::empty(), b),
    ensures
        spec_feed_all(b, chunks) == spec_drain(b + chunks.flatten()),
    decreases chunks.len(),
{
    if chunks.len() == 0 {
        assert(b + chunks.flatten() =~= b);
    } else {
        let c0 = chunks[0];
        let rest = chunks.drop_first();
        assert(chunks.flatten() == c0 + rest.flatten());
        assert(b + chunks.flatten() =~= (b + c0) + rest.flatten());
        lemma_drain_split(b + c0, rest.flatten());
        lemma_drain_rest_settled(b + c0);
        lemma_chunking_irrelevant(spec_drain(b + c0).1, rest);
    }
}

/// Cutting a stream into one-byte chunks keeps the stream.
proof fn lemma_flatten_bytes(s: Seq<u8>)
    ensures
        s.map_values(|x: u8| seq![x]).flatten() == s,
    decreases s.len(),
{
    let chunks = s.map_values(|x: u8| seq![x]);
    if s.len() == 0 {
        assert(chunks.flatten() =~= s);
    } else {
        lemma_flatten_bytes(s.drop_first());
        assert(chunks.drop_first() =~= s.drop_first().map_values(|x: u8| seq![x]));
        assert(chunks.flatten() =~= s);
    }
}

/// Feeding a fresh channel a stream one byte per call yields the same frames,
/// and keeps the same bytes, as feeding it the whole stream in one call.
pub proof fn lemma_bytewise_same_as_bulk(s: Seq<u8>)
    requires
        s.len() <= usize::MAX,
    ensures
        spec_feed_all(Seq::empty(), s.map_values(|x: u8| seq![x])) == spec_feed_all(
            Seq::empty(),
            seq![s],
        ),
{
    let empty = Seq::<u8>::empty();
    lemma_sof_index_unique(empty, 0);
    assert(spec_drain(empty) == (Seq::<Seq<u8>>::empty(), empty));
    lemma_flatten_bytes(s);
    lemma_chunking_irrelevant(empty, s.map_values(|x: u8| seq![x]));
    seq![s].lemma_flatten_one_element();
    lemma_chunking_irrelevant(empty, seq![s]);
}

/// The reassembly state of one channel.
pub struct ChannelState {
    buffer: Vec<u8>,
    bytes_needed: Option<usize>,
}

impl View for ChannelState {
    type V = Seq<u8>;

    /// The bytes held back, not yet part of a frame.
    closed spec fn view(&self) -> Seq<u8> {
        self.buffer@
    }
}

impl ChannelState {
    /// Fewer bytes are held than the longest frame has, and the hint, if
    /// set, is a length below which scanning is futile.
    pub closed spec fn wf(&self) -> bool {
        &&& self.buffer@.len() < 1024
        &&& self.bytes_needed is Some ==> self.bytes_needed->0 <= 1023
        &&& self.bytes_needed is Some ==> spec_waits_below(
            self.buffer@,
            self.bytes_needed->0 as int,
        )
    }

    /// The buffer length below which this channel will not scan again.
    pub closed spec fn hint(&self) -> Option<usize> {
        self.bytes_needed
    }

    pub fn new() -> (r: Self)
        ensures
            r.wf(),
            r@ == Seq::<u8>::empty(),
            r.hint() is None,
    {
        ChannelState { buffer: Vec::new(), bytes_needed: None }
    }

    /// The bytes held back.
    pub fn buffered(&self) -> (r: &[u8])
        ensures
            r@ == self@,
    {
        self.buffer.as_slice()
    }

    /// The buffer length below which this channel will not scan again.
    pub fn bytes_needed(&self) -> (r: Option<usize>)
        requires
            self.wf(),
        ensures
            r == self.hint(),
            r is Some ==> spec_waits_below(self@, r->0 as int),
    {
        self.bytes_needed
    }

    /// Appends `data` and returns every frame that can now be taken, in order.
    ///
    /// The bytes held afterwards are what the scanner left: the start of an
    /// incomplete frame, or nothing. A frame has at most 1023 bytes, so the
    /// bytes held never grow past that bound, whatever arrives. While the bytes held stay below the
    /// hint, the scanner is not run and the hint is kept; otherwise the hint
    /// is what the last scan asked for.
    pub fn push(&mut self, data: &[u8]) -> (frames: Vec<Vec<u8>>)
        requires
            old(self).wf(),
            data@.len() + 1024 <= usize::MAX,
        ensures
            final(self).wf(),
            final(self)@.len() < 1024,
            spec_drain(final(self)@) == (Seq::<Seq<u8>>::empty(), final(self)@),
            (frames_view(frames@), final(self)@) == spec_drain(old(self)@ + data@),
            final(self).hint() == if old(self).hint() is Some && old(self)@.len() + data@.len()
                < old(self).hint()->0 {
                old(self).hint()
            } else {
                spec_drain_hint(old(self)@ + data@)
            },
    {
        let mut frames: Vec<Vec<u8>> = Vec::new();
        let ghost start = self.buffer@ + data@;
        let ghost prev = self.buffer@;
        let mut i: usize = 0;
        while i < data.len()
            invariant
                i <= data@.len(),
                self.buffer@ == prev + data@.subrange(0, i as int),
                prev.len() + data@.len() <= usize::MAX,
                self.bytes_needed == old(self).bytes_needed,
                prev == old(self)@,
            decreases data.len() - i,
        {
            self.buffer.push(data[i]);
            i = i + 1;
            assert(self.buffer@ =~= prev + data@.subrange(0, i as int));
        }
        assert(data@.subrange(0, data@.len() as int) =~= data@);
        if let Some(n) = self.bytes_needed {
            if self.buffer.len() < n {
                proof {
                    assert(spec_waits_below(prev, n as int));
                    assert forall|e: Seq<u8>| start.len() + e.len() < n implies #[trigger] spec_drain(
                        start + e,
                    ) == (Seq::<Seq<u8>>::empty(), start + e) by {
                        assert(start + e =~= prev + (data@ + e));
                        assert(prev.len() + (data@ + e).len() < n);
                        assert(spec_drain(prev + (data@ + e)) == (
                            Seq::<Seq<u8>>::empty(),
                            prev + (data@ + e),
                        ));
                    }
                    assert(start + Seq::<u8>::empty() =~= start);
                    assert(spec_drain(start + Seq::<u8>::empty()) == (
                        Seq::<Seq<u8>>::empty(),
                        start + Seq::<u8>::empty(),
                    ));
                    assert(frames_view(frames@) =~= Seq::<Seq<u8>>::empty());
                }
                return frames;
            }
        }
        self.bytes_needed = None;
        loop
            invariant
                self.bytes_needed is None,
                start == old(self)@ + data@,
                self.buffer@.len() <= usize::MAX,
                frames_view(frames@) + spec_drain(self.buffer@).0 == spec_drain(start).0,
                spec_drain(self.buffer@).1 == spec_drain(start).1,
                spec_drain_hint(self.buffer@) == spec_drain_hint(start),
                !(old(self).hint() is Some && start.len() < old(self).hint()->0),
                start.len() <= usize::MAX,
            decreases self.buffer@.len(),
        {
            let ghost b = self.buffer@;
            proof {
                lemma_parse_bounds(b);
            }
            match parse_frame(self.buffer.as_slice()) {
                Ok((frame, consumed)) => {
                    let f = vstd::slice::slice_to_vec(frame);
                    frames.push(f);
                    let rest = self.buffer.split_off(consumed);
                    self.buffer = rest;
                    proof {
                        let (s, e) = spec_parse(b)->Ok_0;
                        let tail = spec_drain(b.subrange(e, b.len() as int));
                        assert(frames_view(frames@) =~= frames_view(frames@.drop_last()).push(
                            b.subrange(s, e),
                        ));
                        assert(frames_view(frames@) + tail.0 =~= frames_view(frames@.drop_last())
                            + (seq![b.subrange(s, e)] + tail.0));
                    }
                },
                Err(ParseError::NeedMoreData(missing, consumed)) => {
                    let rest = self.buffer.split_off(consumed);
                    self.buffer = rest;
                    self.bytes_needed = Some(missing + self.buffer.len());
                    proof {
                        lemma_need_more_waits(b, missing, consumed);
                        assert(spec_parse(b) == Err::<(int, int), ParseError>(
                            ParseError::NeedMoreData(missing, consumed),
                        ));
                        assert(spec_drain(b).0 == Seq::<Seq<u8>>::empty());
                        assert(spec_drain_hint(b) == Some((missing + (b.len() - consumed)) as usize));
                        assert(frames_view(frames@) + Seq::<Seq<u8>>::empty() =~= frames_view(
                            frames@,
                        ));
                        lemma_drain_rest_settled(start);
                    }
                    return frames;
                },
                Err(ParseError::NoStartOfFrame) => {
                    self.buffer.clear();
                    proof {
                        assert(spec_parse(b) == Err::<(int, int), ParseError>(
                            ParseError::NoStartOfFrame,
                        ));
                        assert(spec_drain(b).0 == Seq::<Seq<u8>>::empty());
                        assert(spec_drain_hint(b) is None);
                        lemma_drain_rest_settled(start);
                        assert(frames_view(frames@) + Seq::<Seq<u8>>::empty() =~= frames_view(
                            frames@,
                        ));
                    }
                    return frames;
                },
                Err(ParseError::InvalidHeaderCRC(consumed)) => {
                    let rest = self.buffer.split_off(consumed);
                    self.buffer = rest;
                },
                Err(ParseError::InvalidPacketCRC(consumed)) => {
                    let rest = self.buffer.split_off(consumed);
                    self.buffer = rest;
                },
            }
        }
    }
}

/// Reassembly state for any number of independent channels, keyed by id.
pub struct StreamReassembler {
    channels: HashMap<u32, ChannelState>,
}

impl View for StreamReassembler {
    type V = Map<u32, Seq<u8>>;

    /// The bytes held back for each channel seen so far.
    closed spec fn view(&self) -> Map<u32, Seq<u8>> {
        self.channels@.map_values(|st: ChannelState| st@)
    }
}

impl StreamReassembler {
    pub closed spec fn wf(&self) -> bool {
        forall|c: u32| #[trigger] self.channels@.contains_key(c) ==> self.channels@[c].wf()
    }

    /// The bytes held back for `channel`; none for a channel not seen yet.
    pub open spec fn pending(&self, channel: u32) -> Seq<u8> {
        if self@.contains_key(channel) {
            self@[channel]
        } else {
            Seq::empty()
        }
    }

    pub fn new() -> (r: Self)
        ensures
            r.wf(),
            r@ == Map::<u32, Seq<u8>>::empty(),
    {
        let r = StreamReassembler { channels: HashMap::new() };
        assert(r@ =~= Map::<u32, Seq<u8>>::empty());
        r
    }

    /// The number of bytes held back for `channel`.
    pub fn pending_len(&self, channel: u32) -> (r: usize)
        ensures
            r == self.pending(channel).len(),
    {
        match self.channels.get(&channel) {
            Some(st) => st.buffered().len(),
            None => 0,
        }
    }

    /// Appends `data` to the stream of `channel` and returns every frame of
    /// that channel that can now be taken, in order. Other channels are not
    /// touched.
    pub fn push(&mut self, channel: u32, data: &[u8]) -> (frames: Vec<Vec<u8>>)
        requires
            old(self).wf(),
            data@.len() + 1024 <= usize::MAX,
        ensures
            final(self).wf(),
            ({
                let (fs, rest) = spec_drain(old(self).pending(channel) + data@);
                &&& frames_view(frames@) == fs
                &&& final(self)@ == old(self)@.insert(channel, rest)
            }),
    {
        let mut st = match self.channels.remove(&channel) {
            Some(st) => st,
            None => ChannelState::new(),
        };
        let frames = st.push(data);
        self.channels.insert(channel, st);
        proof {
            assert(self@ =~= old(self)@.insert(channel, st@));
        }
        frames
    }
}

} // verus!
