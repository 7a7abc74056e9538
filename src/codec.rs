//! The line framing of the wire protocol.
//!
//! A header frame is the JSON text of the header, one byte that says whether
//! a body follows (`1`) or not (`0`), and a newline. A body chunk is its bytes
//! and a newline; an empty line ends the body.
use vstd::prelude::*;
use crate::error::Error;

verus! {

/// The byte that ends every frame.
pub const NEWLINE: u8 = 10;

/// Whether serde_json reads `b` as the text of one JSON value.
pub uninterp spec fn is_json_text(b: Seq<u8>) -> bool;

/// Relies on serde_json::from_slice into a `serde_json::Value`: whether it
/// succeeds depends on the bytes alone.
#[verifier::external_body]
fn json_valid(b: &[u8]) -> (r: bool)
    ensures
        r == is_json_text(b@),
{
    serde_json::from_slice::<serde_json::Value>(b).is_ok()
}

/// One frame on the wire.
pub enum Frame {
    /// A header: its JSON text, and whether a body follows.
    Message { header: Vec<u8>, body: bool },
    /// A body chunk, or the end of the body (`None`).
    Body { chunk: Option<Vec<u8>> },
    /// A failure to be reported in place of a frame.
    Error { message: String },
}

/// A frame with its bytes as sequences.
pub enum FrameModel {
    Message(Seq<u8>, bool),
    Body(Option<Seq<u8>>),
    Error,
}

impl View for Frame {
    type V = FrameModel;

    open spec fn view(&self) -> FrameModel {
        match self {
            Frame::Message { header, body } => FrameModel::Message(header@, *body),
            Frame::Body { chunk } => FrameModel::Body(
                match chunk {
                    Some(c) => Some(c@),
                    None => None,
                },
            ),
            Frame::Error { .. } => FrameModel::Error,
        }
    }
}

/// Whether `s` holds no newline.
pub open spec fn no_newline(s: Seq<u8>) -> bool {
    forall|i: int| 0 <= i < s.len() ==> s[i] != NEWLINE
}

/// The position of the first newline in `s`.
pub open spec fn newline_at(s: Seq<u8>) -> Option<int>
    decreases s.len(),
{
    if s.len() == 0 {
        None
    } else if s[0] == NEWLINE {
        Some(0)
    } else {
        match newline_at(s.drop_first()) {
            Some(k) => Some(k + 1),
            None => None,
        }
    }
}

/// One step of the decoder in state `head` (expecting a header) on the
/// buffered bytes `s`: `None` while no full line is buffered; otherwise the
/// frame read (`None` for a malformed header), the next state, and the bytes
/// left.
pub open spec fn decode_step(head: bool, s: Seq<u8>) -> Option<(Option<FrameModel>, bool, Seq<u8>)> {
    match newline_at(s) {
        None => None,
        Some(n) => {
            let line = s.take(n);
            let rest = s.skip(n + 1);
            if head {
                if n == 0 {
                    Some((None, head, rest))
                } else {
                    let h = line.take(n - 1);
                    let flag = line[n - 1] == 1u8;
                    if is_json_text(h) {
                        Some((Some(FrameModel::Message(h, flag)), !flag, rest))
                    } else {
                        Some((None, head, rest))
                    }
                }
            } else if n == 0 {
                Some((Some(FrameModel::Body(None)), true, rest))
            } else {
                Some((Some(FrameModel::Body(Some(line))), false, rest))
            }
        },
    }
}

/// The bytes that encode a frame.
pub open spec fn encode_spec(f: FrameModel) -> Seq<u8> {
    match f {
        FrameModel::Message(h, b) => h + seq![if b { 1u8 } else { 0u8 }, NEWLINE],
        FrameModel::Body(Some(c)) => c.push(NEWLINE),
        FrameModel::Body(None) => seq![NEWLINE],
        FrameModel::Error => Seq::empty(),
    }
}

/// Whether a frame can be put on the wire: no newline in its bytes.
pub open spec fn frame_fits(f: FrameModel) -> bool {
    match f {
        FrameModel::Message(h, _) => no_newline(h),
        FrameModel::Body(Some(c)) => no_newline(c),
        _ => true,
    }
}

/// Reads and writes frames; remembers whether a header or a body chunk is
/// expected next.
pub struct JsonLineCodec {
    pub decoding_head: bool,
}

/// The protocol as a whole: each connection gets a fresh codec.
pub struct JsonLineProto;

impl JsonLineProto {
    /// The codec for a new connection, expecting a header.
    pub fn bind_transport(&self) -> (r: JsonLineCodec)
        ensures
            r.decoding_head,
    {
        JsonLineCodec::new()
    }
}

/// The position of the first newline in `buf`.
fn find_newline(buf: &Vec<u8>) -> (r: Option<usize>)
    ensures
        newline_at(buf@) == match r {
            Some(n) => Some(n as int),
            None => None::<int>,
        },
        r matches Some(n) ==> n < buf@.len(),
{
    let mut i: usize = 0;
    while i < buf.len()
        invariant
            i <= buf@.len(),
            no_newline(buf@.take(i as int)),
        decreases buf@.len() - i,
    {
        if buf[i] == NEWLINE {
            proof {
                lemma_newline_at_split(buf@.take(i as int), buf@.skip(i + 1));
                assert(buf@ =~= buf@.take(i as int) + seq![NEWLINE] + buf@.skip(i + 1));
            }
            return Some(i);
        }
        assert(buf@.take(i + 1) =~= buf@.take(i as int).push(buf@[i as int]));
        i = i + 1;
    }
    proof {
        assert(buf@.take(i as int) =~= buf@);
        lemma_no_newline_none(buf@);
    }
    None
}

/// A line ends at the first newline after newline-free bytes.
pub proof fn lemma_newline_at_split(a: Seq<u8>, b: Seq<u8>)
    requires
        no_newline(a),
    ensures
        newline_at(a + seq![NEWLINE] + b) == Some(a.len() as int),
    decreases a.len(),
{
    let s = a + seq![NEWLINE] + b;
    if a.len() > 0 {
        lemma_newline_at_split(a.drop_first(), b);
        assert(s.drop_first() =~= a.drop_first() + seq![NEWLINE] + b);
    }
}

proof fn lemma_no_newline_none(s: Seq<u8>)
    requires
        no_newline(s),
    ensures
        newline_at(s) is None,
    decreases s.len(),
{
    if s.len() > 0 {
        lemma_no_newline_none(s.drop_first());
    }
}

impl JsonLineCodec {
    /// A codec that expects a header first.
    pub fn new() -> (r: JsonLineCodec)
        ensures
            r.decoding_head,
    {
        JsonLineCodec { decoding_head: true }
    }

    /// Take the next frame off the front of `buf`, if a full line is there.
    /// A header line with no has-body byte, or whose text is not JSON, is an
    /// error; its line is consumed.
    pub fn decode(&mut self, buf: &mut Vec<u8>) -> (r: Result<Option<Frame>, Error>)
        ensures
            match decode_step(old(self).decoding_head, old(buf)@) {
                None => r matches Ok(None) && final(buf)@ == old(buf)@ && final(self).decoding_head
                    == old(self).decoding_head,
                Some((f, head, rest)) => final(buf)@ == rest && final(self).decoding_head == head
                    && match f {
                    Some(m) => r matches Ok(Some(fr)) && fr@ == m,
                    None => r is Err,
                },
            },
    {
        let n = match find_newline(buf) {
            Some(n) => n,
            None => {
                return Ok(None);
            },
        };
        let ghost s = buf@;
        let mut line: Vec<u8> = buf.split_off(0);
        let len = line.len();
        assert(n < len);
        let rest = line.split_off(n + 1);
        line.truncate(n);
        *buf = rest;
        assert(line@ =~= s.take(n as int));
        assert(buf@ =~= s.skip(n + 1));
        if self.decoding_head {
            if n == 0 {
                return Err(Error::Malformed("Missing body byte at end of message frame".to_owned()));
            }
            let flag = line[n - 1];
            line.truncate(n - 1);
            assert(line@ =~= s.take(n as int).take(n - 1));
            if !json_valid(line.as_slice()) {
                return Err(Error::Malformed("Header is not valid JSON".to_owned()));
            }
            let body = flag == 1u8;
            if body {
                self.decoding_head = false;
            }
            Ok(Some(Frame::Message { header: line, body }))
        } else if n == 0 {
            self.decoding_head = true;
            Ok(Some(Frame::Body { chunk: None }))
        } else {
            Ok(Some(Frame::Body { chunk: Some(line) }))
        }
    }

    /// Append the bytes of `frame` to `buf`. An error frame is not written:
    /// it is returned as the error.
    pub fn encode(&mut self, frame: Frame, buf: &mut Vec<u8>) -> (r: Result<(), Error>)
        requires
            frame_fits(frame@),
        ensures
            *final(self) == *old(self),
            frame@ is Error ==> (r matches Err(Error::Msg(m)) && m == frame->message) && final(buf)@
                == old(buf)@,
            !(frame@ is Error) ==> r is Ok && final(buf)@ == old(buf)@ + encode_spec(frame@),
    {
        let ghost start = buf@;
        match frame {
            Frame::Message { header, body } => {
                extend(buf, header.as_slice());
                buf.push(if body { 1u8 } else { 0u8 });
                buf.push(NEWLINE);
                assert(buf@ =~= start + encode_spec(frame@));
            },
            Frame::Body { chunk } => {
                match chunk {
                    Some(c) => {
                        extend(buf, c.as_slice());
                    },
                    None => {},
                }
                buf.push(NEWLINE);
                assert(buf@ =~= start + encode_spec(frame@));
            },
            Frame::Error { message } => {
                return Err(Error::Msg(message));
            },
        }
        Ok(())
    }
}

/// Append the bytes of `src` to `dst`.
pub(crate) fn extend(dst: &mut Vec<u8>, src: &[u8])
    ensures
        final(dst)@ == old(dst)@ + src@,
{
    let mut i: usize = 0;
    while i < src.len()
        invariant
            i <= src@.len(),
            dst@ == old(dst)@ + src@.take(i as int),
        decreases src@.len() - i,
    {
        dst.push(src[i]);
        i = i + 1;
        assert(src@.take(i as int) =~= src@.take(i - 1).push(src@[i - 1]));
    }
    assert(src@.take(i as int) =~= src@);
}

/// The bytes of a body: each chunk framed in order, then the end-of-body line.
pub open spec fn body_bytes(cs: Seq<Seq<u8>>) -> Seq<u8>
    decreases cs.len(),
{
    if cs.len() == 0 {
        encode_spec(FrameModel::Body(None))
    } else {
        encode_spec(FrameModel::Body(Some(cs[0]))) + body_bytes(cs.drop_first())
    }
}

/// The frames of a body: one per chunk, in order, then the end of the body.
pub open spec fn body_frames(cs: Seq<Seq<u8>>) -> Seq<FrameModel> {
    cs.map_values(|c: Seq<u8>| FrameModel::Body(Some(c))) + seq![FrameModel::Body(None)]
}

/// Whether each chunk can travel as a body line: not empty, no newline.
pub open spec fn chunks_fit(cs: Seq<Seq<u8>>) -> bool {
    forall|i: int| 0 <= i < cs.len() ==> (#[trigger] cs[i]).len() > 0 && no_newline(cs[i])
}

/// The first `k` frames that the decoder reads from `s` in state `head`,
/// stopping early at a partial line or an error; with the state and the bytes
/// left after them.
pub open spec fn decode_n(head: bool, s: Seq<u8>, k: nat) -> (Seq<FrameModel>, bool, Seq<u8>)
    decreases k,
{
    if k == 0 {
        (Seq::empty(), head, s)
    } else {
        match decode_step(head, s) {
            Some((Some(f), next, rest)) => {
                let (fs, h, r) = decode_n(next, rest, (k - 1) as nat);
                (seq![f] + fs, h, r)
            },
            _ => (Seq::empty(), head, s),
        }
    }
}

proof fn lemma_body_round_trip(cs: Seq<Seq<u8>>, tail: Seq<u8>)
    requires
        chunks_fit(cs),
    ensures
        decode_n(false, body_bytes(cs) + tail, cs.len() + 1) == (body_frames(cs), true, tail),
    decreases cs.len(),
{
    let s = body_bytes(cs) + tail;
    if cs.len() == 0 {
        lemma_newline_at_split(Seq::empty(), tail);
        assert(s =~= Seq::<u8>::empty() + seq![NEWLINE] + tail);
        assert(s.skip(1) =~= tail);
        assert(body_frames(cs) =~= seq![FrameModel::Body(None)]);
        assert(decode_n(true, tail, 0) == (Seq::<FrameModel>::empty(), true, tail));
        assert(seq![FrameModel::Body(None)] + Seq::<FrameModel>::empty() =~= seq![FrameModel::Body(None)]);
    } else {
        let c = cs[0];
        let rest = body_bytes(cs.drop_first()) + tail;
        assert(chunks_fit(cs.drop_first())) by {
            assert forall|i: int| 0 <= i < cs.drop_first().len() implies (#[trigger] cs.drop_first()[i]).len()
                > 0 && no_newline(cs.drop_first()[i]) by {
                assert(cs.drop_first()[i] == cs[i + 1]);
            }
        }
        lemma_body_round_trip(cs.drop_first(), tail);
        assert(cs[0].len() > 0 && no_newline(cs[0]));
        lemma_newline_at_split(c, rest);
        assert(s =~= c + seq![NEWLINE] + rest);
        assert(s.take(c.len() as int) =~= c);
        assert(s.skip(c.len() as int + 1) =~= rest);
        assert(body_frames(cs) =~= seq![FrameModel::Body(Some(c))] + body_frames(cs.drop_first()));
    }
}

/// Round trip of a message with a body: the decoder reads back its header,
/// then each chunk in order, then the end of the body exactly once, and is
/// left expecting the next header with the bytes that follow.
pub proof fn lemma_message_round_trip(h: Seq<u8>, cs: Seq<Seq<u8>>, tail: Seq<u8>)
    requires
        is_json_text(h),
        no_newline(h),
        chunks_fit(cs),
    ensures
        decode_n(true, encode_spec(FrameModel::Message(h, true)) + body_bytes(cs) + tail, cs.len() + 2)
            == (seq![FrameModel::Message(h, true)] + body_frames(cs), true, tail),
{
    let rest = body_bytes(cs) + tail;
    let s = encode_spec(FrameModel::Message(h, true)) + body_bytes(cs) + tail;
    let line = h.push(1u8);
    assert(no_newline(line)) by {
        assert forall|i: int| 0 <= i < line.len() implies line[i] != NEWLINE by {
            if i < h.len() {
                assert(line[i] == h[i]);
            }
        }
    }
    lemma_newline_at_split(line, rest);
    assert(s =~= line + seq![NEWLINE] + rest);
    assert(s.take(line.len() as int) =~= line);
    assert(line.take(h.len() as int) =~= h);
    assert(s.skip(line.len() as int + 1) =~= rest);
    lemma_body_round_trip(cs, tail);
    assert(decode_n(true, s, cs.len() + 2).0 =~= seq![FrameModel::Message(h, true)] + body_frames(cs));
}

/// Round trip of a message without a body: the decoder reads back its header
/// alone and still expects a header.
pub proof fn lemma_bare_message_round_trip(h: Seq<u8>, tail: Seq<u8>)
    requires
        is_json_text(h),
        no_newline(h),
    ensures
        decode_n(true, encode_spec(FrameModel::Message(h, false)) + tail, 1) == (
            seq![FrameModel::Message(h, false)],
            true,
            tail,
        ),
{
    let s = encode_spec(FrameModel::Message(h, false)) + tail;
    let line = h.push(0u8);
    assert(no_newline(line)) by {
        assert forall|i: int| 0 <= i < line.len() implies line[i] != NEWLINE by {
            if i < h.len() {
                assert(line[i] == h[i]);
            }
        }
    }
    lemma_newline_at_split(line, tail);
    assert(s =~= line + seq![NEWLINE] + tail);
    assert(s.take(line.len() as int) =~= line);
    assert(line.take(h.len() as int) =~= h);
    assert(s.skip(line.len() as int + 1) =~= tail);
    assert(decode_n(true, tail, 0) == (Seq::<FrameModel>::empty(), true, tail));
    assert(seq![FrameModel::Message(h, false)] + Seq::<FrameModel>::empty() =~= seq![FrameModel::Message(h, false)]);
}

/// One decode step on an encoded header, with or without a body flag, reads
/// that header back, expects a body chunk exactly when the flag is set, and
/// leaves the bytes that follow.
pub proof fn lemma_header_step(h: Seq<u8>, b: bool, rest: Seq<u8>)
    requires
        is_json_text(h),
        no_newline(h),
    ensures
        decode_step(true, encode_spec(FrameModel::Message(h, b)) + rest) == Some(
            (Some(FrameModel::Message(h, b)), !b, rest),
        ),
{
    let flag: u8 = if b { 1u8 } else { 0u8 };
    let s = encode_spec(FrameModel::Message(h, b)) + rest;
    let line = h.push(flag);
    assert(no_newline(line)) by {
        assert forall|i: int| 0 <= i < line.len() implies line[i] != NEWLINE by {
            if i < h.len() {
                assert(line[i] == h[i]);
            }
        }
    }
    lemma_newline_at_split(line, rest);
    assert(s =~= line + seq![NEWLINE] + rest);
    assert(s.take(line.len() as int) =~= line);
    assert(line.take(h.len() as int) =~= h);
    assert(s.skip(line.len() as int + 1) =~= rest);
}

} // verus!
