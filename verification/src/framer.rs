//! Message framing (RFC 9622 Section 9.1.2): the length-prefix wire format, the `Framer`
//! trait, its length-prefix implementation, and stacks of framers.

use vstd::prelude::*;
use crate::error::{Result, TapsError};
use crate::message::{Message, MessageContext};

verus! {

/// The number whose big-endian encoding is the first four bytes of `b`.
pub open spec fn be32(b: Seq<u8>) -> int {
    (b[0] as int) * 16777216 + (b[1] as int) * 65536 + (b[2] as int) * 256 + (b[3] as int)
}

/// The four-byte big-endian encoding of `n` (taken modulo 2^32).
pub open spec fn be32_bytes(n: nat) -> Seq<u8> {
    seq![
        ((n / 16777216) % 256) as u8,
        ((n / 65536) % 256) as u8,
        ((n / 256) % 256) as u8,
        (n % 256) as u8,
    ]
}

/// A payload on the wire: its length as a four-byte big-endian prefix (the length taken
/// modulo 2^32), then the payload itself.
pub open spec fn frame(payload: Seq<u8>) -> Seq<u8> {
    be32_bytes(payload.len() % 4294967296) + payload
}

/// The wire form of a sequence of payloads: their frames, one after another.
pub open spec fn frames(payloads: Seq<Seq<u8>>) -> Seq<u8>
    decreases payloads.len(),
{
    if payloads.len() == 0 {
        Seq::empty()
    } else {
        frame(payloads[0]) + frames(payloads.skip(1))
    }
}

/// Splits a receive buffer into the complete payloads at its front and the bytes that
/// remain: while at least four bytes remain and the payload they announce is complete,
/// that payload is taken; what is left (a partial prefix or a partial payload) remains.
pub open spec fn parse_frames(buf: Seq<u8>) -> (Seq<Seq<u8>>, Seq<u8>)
    decreases buf.len(),
{
    if buf.len() < 4 {
        (Seq::empty(), buf)
    } else {
        let n = be32(buf);
        if buf.len() - 4 < n {
            (Seq::empty(), buf)
        } else {
            let rest = parse_frames(buf.skip(4 + n));
            (seq![buf.subrange(4, 4 + n)] + rest.0, rest.1)
        }
    }
}

/// The byte contents of a sequence of byte vectors.
pub open spec fn contents(v: Seq<Vec<u8>>) -> Seq<Seq<u8>> {
    v.map_values(|b: Vec<u8>| b@)
}

proof fn lemma_be32_roundtrip(n: u32)
    ensures
        be32(be32_bytes(n as nat)) == n as int,
{
    assert(((n / 16777216) % 256) * 16777216 + ((n / 65536) % 256) * 65536 + ((n / 256) % 256) * 256
        + n % 256 == n) by (bit_vector);
}

proof fn lemma_be32_bytes_of_value(c0: u32, c1: u32, c2: u32, c3: u32)
    requires
        c0 < 256,
        c1 < 256,
        c2 < 256,
        c3 < 256,
    ensures
        ({
            let n = c0 * 16777216 + c1 * 65536 + c2 * 256 + c3;
            (n / 16777216) % 256 == c0 && (n / 65536) % 256 == c1 && (n / 256) % 256 == c2 && n % 256 == c3
        }),
{
    let n: u32 = (c0 * 16777216 + c1 * 65536 + c2 * 256 + c3) as u32;
    assert((n / 16777216) % 256 == c0 && (n / 65536) % 256 == c1 && (n / 256) % 256 == c2 && n % 256 == c3)
        by (bit_vector)
        requires
            c0 < 256,
            c1 < 256,
            c2 < 256,
            c3 < 256,
            n == c0 * 16777216 + c1 * 65536 + c2 * 256 + c3,
    ;
}

/// Law: parsing a frame followed by any bytes gives back the payload, then parses on
/// from the following bytes (for payloads shorter than 2^32 bytes).
pub proof fn lemma_parse_frame_then(payload: Seq<u8>, rest: Seq<u8>)
    requires
        payload.len() < 4294967296,
    ensures
        parse_frames(frame(payload) + rest) == (
            seq![payload] + parse_frames(rest).0,
            parse_frames(rest).1,
        ),
{
    let buf = frame(payload) + rest;
    lemma_be32_roundtrip(payload.len() as u32);
    assert(buf.take(4) =~= be32_bytes(payload.len() as nat));
    assert(be32(buf) == be32(be32_bytes(payload.len() as nat)));
    assert(buf.subrange(4, 4 + payload.len() as int) =~= payload);
    assert(buf.skip(4 + payload.len() as int) =~= rest);
}

/// Law: a frame followed by any bytes announces its payload's length in its first four
/// bytes, carries the payload right after them, and is followed by those bytes (for
/// payloads shorter than 2^32 bytes).
pub proof fn lemma_frame_layout(payload: Seq<u8>, rest: Seq<u8>)
    requires
        payload.len() < 4294967296,
    ensures
        ({
            let buf = frame(payload) + rest;
            &&& buf.len() >= 4
            &&& be32(buf) == payload.len()
            &&& buf.subrange(4, 4 + payload.len() as int) == payload
            &&& buf.skip(4 + payload.len() as int) == rest
        }),
{
    let buf = frame(payload) + rest;
    lemma_be32_roundtrip(payload.len() as u32);
    assert(buf.take(4) =~= be32_bytes(payload.len() as nat));
    assert(be32(buf) == be32(be32_bytes(payload.len() as nat)));
    assert(buf.subrange(4, 4 + payload.len() as int) =~= payload);
    assert(buf.skip(4 + payload.len() as int) =~= rest);
}

/// Every payload in the sequence is shorter than 2^32 bytes.
pub open spec fn all_framable(payloads: Seq<Seq<u8>>) -> bool {
    forall|i: int| 0 <= i < payloads.len() ==> #[trigger] payloads[i].len() < 4294967296
}

/// Law (what a read gives back of a write): the frames of a sequence of payloads,
/// followed by any bytes, parse into exactly those payloads, followed by what the
/// following bytes parse into.
pub proof fn lemma_parse_frames_roundtrip(payloads: Seq<Seq<u8>>, rest: Seq<u8>)
    requires
        all_framable(payloads),
    ensures
        parse_frames(frames(payloads) + rest) == (
            payloads + parse_frames(rest).0,
            parse_frames(rest).1,
        ),
    decreases payloads.len(),
{
    if payloads.len() == 0 {
        assert(frames(payloads) + rest =~= rest);
        assert(payloads + parse_frames(rest).0 =~= parse_frames(rest).0);
    } else {
        let tail = payloads.skip(1);
        assert(all_framable(tail)) by {
            assert forall|i: int| 0 <= i < tail.len() implies #[trigger] tail[i].len() < 4294967296 by {
                assert(tail[i] == payloads[i + 1]);
            }
        }
        lemma_parse_frames_roundtrip(tail, rest);
        assert(payloads[0].len() < 4294967296);
        lemma_parse_frame_then(payloads[0], frames(tail) + rest);
        assert(frames(payloads) + rest =~= frame(payloads[0]) + (frames(tail) + rest));
        assert(seq![payloads[0]] + (tail + parse_frames(rest).0) =~= payloads + parse_frames(rest).0);
    }
}

/// Law: whatever a buffer parses into, the payloads re-framed and followed by the
/// remaining bytes give back the buffer (parsing loses and invents no byte).
pub proof fn lemma_parse_frames_lossless(buf: Seq<u8>)
    ensures
        frames(parse_frames(buf).0) + parse_frames(buf).1 == buf,
        all_framable(parse_frames(buf).0),
    decreases buf.len(),
{
    if buf.len() < 4 {
        assert(frames(Seq::<Seq<u8>>::empty()) + buf =~= buf);
    } else {
        let n = be32(buf);
        if buf.len() - 4 < n {
            assert(frames(Seq::<Seq<u8>>::empty()) + buf =~= buf);
        } else {
            let rest = buf.skip(4 + n);
            lemma_parse_frames_lossless(rest);
            let payload = buf.subrange(4, 4 + n);
            let ps = parse_frames(buf).0;
            assert(n < 4294967296);
            assert(payload.len() == n);
            lemma_be32_bytes_of_value(buf[0] as u32, buf[1] as u32, buf[2] as u32, buf[3] as u32);
            assert(be32_bytes(n as nat) =~= buf.take(4));
            assert(ps =~= seq![payload] + parse_frames(rest).0);
            assert(ps[0] == payload);
            assert(ps.skip(1) =~= parse_frames(rest).0);
            assert(frame(payload) =~= buf.take(4 + n));
            assert(frames(ps) == frame(payload) + frames(parse_frames(rest).0));
            assert(buf =~= buf.take(4 + n) + rest);
            assert(all_framable(ps)) by {
                assert forall|i: int| 0 <= i < ps.len() implies #[trigger] ps[i].len() < 4294967296 by {
                    if i > 0 {
                        assert(ps[i] == parse_frames(rest).0[i - 1]);
                    }
                }
            }
        }
    }
}

/// The four-byte big-endian length prefix of a payload of `len` bytes.
pub fn encode_length_prefix(len: usize) -> (r: Vec<u8>)
    ensures
        r@ == be32_bytes(len as nat % 4294967296),
{
    let n: u64 = (len as u64) % 4294967296;
    let mut r: Vec<u8> = Vec::new();
    r.push(((n / 16777216) % 256) as u8);
    r.push(((n / 65536) % 256) as u8);
    r.push(((n / 256) % 256) as u8);
    r.push((n % 256) as u8);
    assert(r@ =~= be32_bytes(len as nat % 4294967296));
    r
}

/// The wire form of a payload: its length prefix, then the payload.
pub fn frame_bytes(payload: &[u8]) -> (r: Vec<u8>)
    ensures
        r@ == frame(payload@),
{
    let mut r = encode_length_prefix(payload.len());
    let mut body = vstd::slice::slice_to_vec(payload);
    r.append(&mut body);
    r
}

fn read_be32(buf: &[u8], pos: usize) -> (r: u32)
    requires
        pos + 4 <= buf@.len(),
    ensures
        r as int == be32(buf@.skip(pos as int)),
{
    (buf[pos] as u32) * 16777216 + (buf[pos + 1] as u32) * 65536 + (buf[pos + 2] as u32) * 256 + (buf[pos + 3] as u32)
}

/// Splits a receive buffer into its complete payloads, and says where the remaining
/// bytes begin.
pub fn parse_frames_exec(buf: &[u8]) -> (r: (Vec<Vec<u8>>, usize))
    ensures
        r.1 <= buf@.len(),
        contents(r.0@) == parse_frames(buf@).0,
        buf@.skip(r.1 as int) == parse_frames(buf@).1,
{
    let mut out: Vec<Vec<u8>> = Vec::new();
    let mut pos: usize = 0;
    assert(buf@.skip(0) =~= buf@);
    assert(contents(out@) + parse_frames(buf@.skip(0)).0 =~= parse_frames(buf@).0);
    while buf.len() - pos >= 4
        invariant
            pos <= buf@.len(),
            contents(out@) + parse_frames(buf@.skip(pos as int)).0 == parse_frames(buf@).0,
            parse_frames(buf@.skip(pos as int)).1 == parse_frames(buf@).1,
        ensures
            pos <= buf@.len(),
            contents(out@) + parse_frames(buf@.skip(pos as int)).0 == parse_frames(buf@).0,
            parse_frames(buf@.skip(pos as int)).1 == parse_frames(buf@).1,
            parse_frames(buf@.skip(pos as int)).0 == Seq::<Seq<u8>>::empty(),
            parse_frames(buf@.skip(pos as int)).1 == buf@.skip(pos as int),
        decreases buf@.len() - pos,
    {
        let ghost here = buf@.skip(pos as int);
        let n = read_be32(buf, pos);
        if ((buf.len() - pos - 4) as u64) < (n as u64) {
            break;
        }
        let n = n as usize;
        let start = pos + 4;
        let payload = vstd::slice::slice_to_vec(vstd::slice::slice_subrange(buf, start, start + n));
        assert(payload@ =~= here.subrange(4, 4 + n as int));
        assert(buf@.skip((start + n) as int) =~= here.skip(4 + n as int));
        let ghost old_out = out@;
        out.push(payload);
        assert(contents(out@) =~= contents(old_out).push(payload@));
        assert(contents(out@) + parse_frames(buf@.skip((start + n) as int)).0
            =~= contents(old_out) + parse_frames(here).0);
        pos = start + n;
    }
    assert(contents(out@) + Seq::<Seq<u8>>::empty() =~= contents(out@));
    (out, pos)

}

/// What a length-prefix parser that starts with `pending` buffered yields when it is fed
/// `chunks` one after another: the payloads of all the feeds, in order, and the bytes left
/// buffered at the end. Each feed parses the buffered bytes followed by the chunk, as
/// `LengthPrefixFramer::parse_data` does.
pub open spec fn parse_chunks(pending: Seq<u8>, chunks: Seq<Seq<u8>>) -> (Seq<Seq<u8>>, Seq<u8>)
    decreases chunks.len(),
{
    if chunks.len() == 0 {
        (Seq::empty(), pending)
    } else {
        let first = parse_frames(pending + chunks.first());
        let rest = parse_chunks(first.1, chunks.drop_first());
        (first.0 + rest.0, rest.1)
    }
}

proof fn lemma_regroup(a: Seq<u8>, b: Seq<u8>, c: Seq<u8>, x: Seq<u8>, y: Seq<u8>)
    requires
        x + y == a + b,
    ensures
        a + (b + c) == x + (y + c),
{
    assert(a + (b + c) =~= (a + b) + c);
    assert(x + (y + c) =~= (x + y) + c);
}

/// Law: what parsing leaves over holds no complete frame, so parsing it again yields
/// nothing and leaves it as it is.
pub proof fn lemma_remainder_settled(buf: Seq<u8>)
    ensures
        parse_frames(parse_frames(buf).1) == (Seq::<Seq<u8>>::empty(), parse_frames(buf).1),
    decreases buf.len(),
{
    if buf.len() >= 4 && buf.len() - 4 >= be32(buf) {
        lemma_remainder_settled(buf.skip(4 + be32(buf)));
    }
}

/// Law (chunking does not matter): a parser holding bytes that form no complete frame
/// (as a new parser, and every parser after a feed, does), fed bytes in chunks, yields
/// the same payloads, and leaves the same bytes buffered, as when fed all of them at once.
pub proof fn lemma_parse_chunks(pending: Seq<u8>, chunks: Seq<Seq<u8>>)
    requires
        parse_frames(pending).0.len() == 0,
    ensures
        parse_chunks(pending, chunks) == parse_frames(pending + chunks.flatten()),
    decreases chunks.len(),
{
    if chunks.len() == 0 {
        assert(pending + chunks.flatten() =~= pending);
        assert(parse_frames(pending).0 =~= Seq::<Seq<u8>>::empty());
    } else {
        lemma_remainder_settled(pending + chunks.first());
        let head = pending + chunks.first();
        let first = parse_frames(head);
        let tail = chunks.drop_first().flatten();
        lemma_parse_chunks(first.1, chunks.drop_first());
        lemma_parse_frames_lossless(head);
        lemma_parse_frames_roundtrip(first.0, first.1 + tail);
        lemma_regroup(pending, chunks.first(), tail, frames(first.0), first.1);
        assert(chunks.flatten() == chunks.first() + tail);
    }
}

/// Law (one feed at a time): feeding one more chunk yields what the earlier feeds yielded,
/// followed by what parsing the bytes left buffered and the new chunk yields, and leaves
/// what that parse leaves; `LengthPrefixFramer::parse_data` states this step in its
/// contract.
pub proof fn lemma_parse_chunks_push(pending: Seq<u8>, chunks: Seq<Seq<u8>>, chunk: Seq<u8>)
    requires
        parse_frames(pending).0.len() == 0,
    ensures
        ({
            let before = parse_chunks(pending, chunks);
            let step = parse_frames(before.1 + chunk);
            parse_chunks(pending, chunks.push(chunk)) == (before.0 + step.0, step.1)
        }),
{
    let more = chunks.push(chunk);
    lemma_parse_chunks(pending, chunks);
    lemma_parse_chunks(pending, more);
    more.lemma_flatten_and_flatten_alt_are_equivalent();
    chunks.lemma_flatten_and_flatten_alt_are_equivalent();
    assert(more.drop_last() =~= chunks);
    assert(more.flatten() == chunks.flatten() + chunk);
    let x = pending + chunks.flatten();
    let first = parse_frames(x);
    lemma_parse_frames_lossless(x);
    lemma_parse_frames_roundtrip(first.0, first.1 + chunk);
    lemma_regroup(pending, chunks.flatten(), chunk, frames(first.0), first.1);
}

/// Law (what a read gives back of a write, in chunks): when the frames of some payloads
/// are fed to a length-prefix parser with nothing buffered, split into any chunks, the
/// feeds together yield exactly those payloads, in order, nothing stays buffered, and a
/// further empty feed yields nothing.
pub proof fn lemma_frames_in_chunks(payloads: Seq<Seq<u8>>, chunks: Seq<Seq<u8>>)
    requires
        all_framable(payloads),
        chunks.flatten() == frames(payloads),
    ensures
        parse_chunks(Seq::empty(), chunks) == (payloads, Seq::<u8>::empty()),
        parse_frames(parse_chunks(Seq::empty(), chunks).1 + Seq::<u8>::empty()) == (Seq::<Seq<u8>>::empty(), Seq::<u8>::empty()),
{
    assert(parse_frames(Seq::<u8>::empty()).0.len() == 0);
    lemma_parse_chunks(Seq::empty(), chunks);
    assert(Seq::<u8>::empty() + chunks.flatten() =~= frames(payloads) + Seq::<u8>::empty());
    lemma_parse_frames_roundtrip(payloads, Seq::empty());
    assert(payloads + Seq::<Seq<u8>>::empty() =~= payloads);
    assert(Seq::<u8>::empty() + Seq::<u8>::empty() =~= Seq::<u8>::empty());
}

/// The payloads carried by a sequence of received messages.
pub open spec fn payloads(v: Seq<(Message, MessageContext)>) -> Seq<Seq<u8>> {
    v.map_values(|m: (Message, MessageContext)| m.0@.data)
}

/// Message Framer (RFC 9622 Section 9.1.2): encapsulates outbound messages and decodes
/// inbound data into messages.
pub trait Framer: Sized {
    /// The bytes this framer sends for a payload.
    spec fn frame_spec(&self, payload: Seq<u8>) -> Seq<u8>;

    /// Whether framing never fails for this kind of framer.
    spec fn infallible() -> bool;

    /// The payloads this framer yields when given more inbound data.
    spec fn parse_out(&self, data: Seq<u8>) -> Seq<Seq<u8>>;

    /// Given more inbound data, this framer may end in state `after`.
    spec fn parse_next(&self, data: Seq<u8>, after: Self) -> bool;

    /// Frames an outbound message.
    fn frame_message(&self, message: &Message, context: &MessageContext) -> (r: Result<Vec<u8>>)
        ensures
            r matches Ok(v) ==> v@ == self.frame_spec(message@.data),
            Self::infallible() ==> r is Ok,
    ;

    /// Decodes inbound data into messages.
    fn parse_data(&mut self, data: &[u8]) -> (r: Result<Vec<(Message, MessageContext)>>)
        ensures
            Self::infallible() ==> r is Ok,
            r matches Ok(v) ==> payloads(v@) == old(self).parse_out(data@) && old(self).parse_next(
                data@,
                *final(self),
            ),
            r is Err ==> *final(self) == *old(self),
    ;

    /// The framer's name.
    fn name(&self) -> &str;

    /// Whether attaching this framer to a connection succeeds.
    spec fn attaches(&self) -> bool;

    /// Whether detaching this framer from a closing connection succeeds.
    spec fn detaches(&self) -> bool;

    /// Called when the framer is attached to a connection.
    fn on_attach(&self) -> (r: Result<()>)
        ensures
            r is Ok <==> self.attaches(),
    ;

    /// Called when the connection is closing.
    fn on_detach(&self) -> (r: Result<()>)
        ensures
            r is Ok <==> self.detaches(),
    ;
}

/// Length-prefix framer: each message is sent with a four-byte big-endian length prefix;
/// inbound bytes are buffered until whole messages are available.
pub struct LengthPrefixFramer {
    buffer: Vec<u8>,
}

impl LengthPrefixFramer {
    /// The bytes received that do not yet form a whole message.
    pub closed spec fn pending(&self) -> Seq<u8> {
        self.buffer@
    }

    /// A framer with nothing buffered.
    pub fn new() -> (r: Self)
        ensures
            r.pending() == Seq::<u8>::empty(),
    {
        LengthPrefixFramer { buffer: Vec::new() }
    }
}

impl Default for LengthPrefixFramer {
    fn default() -> (r: Self)
        ensures
            r.pending() == Seq::<u8>::empty(),
    {
        LengthPrefixFramer::new()
    }
}

proof fn lemma_contents_to_payloads(raw: Seq<Vec<u8>>, msgs: Seq<(Message, MessageContext)>)
    requires
        raw.len() == msgs.len(),
        forall|i: int| 0 <= i < raw.len() ==> #[trigger] msgs[i].0@.data == raw[i]@,
    ensures
        payloads(msgs) == contents(raw),
{
    assert(payloads(msgs) =~= contents(raw));
}

impl Framer for LengthPrefixFramer {
    open spec fn frame_spec(&self, payload: Seq<u8>) -> Seq<u8> {
        frame(payload)
    }

    open spec fn infallible() -> bool {
        true
    }

    open spec fn parse_out(&self, data: Seq<u8>) -> Seq<Seq<u8>> {
        parse_frames(self.pending() + data).0
    }

    open spec fn parse_next(&self, data: Seq<u8>, after: Self) -> bool {
        after.pending() == parse_frames(self.pending() + data).1
    }

    fn frame_message(&self, message: &Message, _context: &MessageContext) -> (r: Result<Vec<u8>>) {
        Ok(frame_bytes(message.data()))
    }

    fn parse_data(&mut self, data: &[u8]) -> (r: Result<Vec<(Message, MessageContext)>>) {
        let mut incoming = vstd::slice::slice_to_vec(data);
        self.buffer.append(&mut incoming);
        let (raw, pos) = parse_frames_exec(self.buffer.as_slice());
        let mut out: Vec<(Message, MessageContext)> = Vec::new();
        let mut i: usize = 0;
        while i < raw.len()
            invariant
                i <= raw.len(),
                out@.len() == i,
                forall|j: int| 0 <= j < i ==> #[trigger] out@[j].0@.data == raw@[j]@,
            decreases raw.len() - i,
        {
            let m = Message::from_bytes(raw[i].as_slice());
            out.push((m, MessageContext::new()));
            i += 1;
        }
        proof { lemma_contents_to_payloads(raw@, out@); }
        let rest = self.buffer.split_off(pos);
        self.buffer = rest;
        Ok(out)
    }

    fn name(&self) -> (r: &str)
        ensures
            r@ == "length-prefix"@,
    {
        "length-prefix"
    }

    open spec fn attaches(&self) -> bool {
        true
    }

    open spec fn detaches(&self) -> bool {
        true
    }

    fn on_attach(&self) -> (r: Result<()>) {
        Ok(())
    }

    fn on_detach(&self) -> (r: Result<()>) {
        Ok(())
    }
}

/// The bytes a stack of framers sends for a payload: the last framer added frames first,
/// the first framer added frames last (outermost).
pub open spec fn stack_frame<F: Framer>(framers: Seq<F>, payload: Seq<u8>) -> Seq<u8>
    decreases framers.len(),
{
    if framers.len() == 0 {
        payload
    } else {
        framers[0].frame_spec(stack_frame(framers.skip(1), payload))
    }
}

/// The outcome of a stack parse, taken framer by framer from index `i`: given `data`, the
/// framer at `i` (in state `before[i]`, ending in `after[i]`) yields its payloads; none
/// means the stack yields nothing; otherwise the first payload goes on to framer `i + 1`.
/// Past the last framer, the last framer parses the data once more, from state `mid`, and
/// its payloads are the stack's result.
pub open spec fn stack_parses<F: Framer>(
    before: Seq<F>,
    after: Seq<F>,
    mid: F,
    i: int,
    data: Seq<u8>,
    out: Seq<Seq<u8>>,
) -> bool
    decreases before.len() - i,
{
    if i >= before.len() {
        &&& before.len() > 0
        &&& out == mid.parse_out(data)
        &&& mid.parse_next(data, after[before.len() - 1])
    } else if i < 0 {
        false
    } else {
        let yielded = before[i].parse_out(data);
        if yielded.len() == 0 {
            &&& out == Seq::<Seq<u8>>::empty()
            &&& before[i].parse_next(data, after[i])
            &&& forall|j: int| i < j < before.len() ==> after[j] == before[j]
        } else if i == before.len() - 1 {
            &&& before[i].parse_next(data, mid)
            &&& stack_parses(before, after, mid, i + 1, yielded[0], out)
        } else {
            &&& before[i].parse_next(data, after[i])
            &&& stack_parses(before, after, mid, i + 1, yielded[0], out)
        }
    }
}

proof fn lemma_stack_stops_early<F: Framer>(
    before: Seq<F>,
    after: Seq<F>,
    mid: F,
    ds: Seq<Seq<u8>>,
    e: int,
    k: int,
)
    requires
        0 <= k <= e < before.len(),
        after.len() == before.len(),
        ds.len() == e + 1,
        before[e].parse_out(ds[e]).len() == 0,
        before[e].parse_next(ds[e], after[e]),
        forall|j: int| e < j < before.len() ==> after[j] == before[j],
        forall|j: int| 0 <= j < e ==> #[trigger] before[j].parse_out(ds[j]).len() > 0 && ds[j + 1]
            == before[j].parse_out(ds[j])[0],
        forall|j: int| 0 <= j < e ==> #[trigger] before[j].parse_next(ds[j], after[j]),
    ensures
        stack_parses(before, after, mid, k, ds[k], Seq::<Seq<u8>>::empty()),
    decreases e - k,
{
    if k < e {
        lemma_stack_stops_early(before, after, mid, ds, e, k + 1);
        assert(before[k].parse_out(ds[k]).len() > 0);
    }
}

proof fn lemma_stack_runs_through<F: Framer>(
    before: Seq<F>,
    after: Seq<F>,
    mid: F,
    ds: Seq<Seq<u8>>,
    out: Seq<Seq<u8>>,
    k: int,
)
    requires
        before.len() > 0,
        0 <= k <= before.len(),
        after.len() == before.len(),
        ds.len() == before.len() + 1,
        forall|j: int| 0 <= j < before.len() ==> #[trigger] before[j].parse_out(ds[j]).len() > 0 && ds[j + 1]
            == before[j].parse_out(ds[j])[0],
        forall|j: int| 0 <= j < before.len() - 1 ==> #[trigger] before[j].parse_next(ds[j], after[j]),
        before[before.len() - 1].parse_next(ds[before.len() - 1], mid),
        out == mid.parse_out(ds[before.len() as int]),
        mid.parse_next(ds[before.len() as int], after[before.len() - 1]),
    ensures
        stack_parses(before, after, mid, k, ds[k], out),
    decreases before.len() - k,
{
    if k < before.len() {
        lemma_stack_runs_through(before, after, mid, ds, out, k + 1);
        assert(before[k].parse_out(ds[k]).len() > 0);
    }
}

/// A stack of framers applied to a connection.
pub struct FramerStack<F: Framer> {
    framers: Vec<F>,
}

impl<F: Framer> View for FramerStack<F> {
    type V = Seq<F>;

    closed spec fn view(&self) -> Seq<F> {
        self.framers@
    }
}

impl<F: Framer> FramerStack<F> {
    /// An empty stack.
    pub fn new() -> (r: Self)
        ensures
            r@ == Seq::<F>::empty(),
    {
        FramerStack { framers: Vec::new() }
    }

    /// Adds a framer on top of the stack.
    pub fn add_framer(&mut self, framer: F)
        ensures
            final(self)@ == old(self)@.push(framer),
    {
        self.framers.push(framer);
    }

    /// Whether the stack holds no framer.
    pub fn is_empty(&self) -> (r: bool)
        ensures
            r == (self@.len() == 0),
    {
        self.framers.len() == 0
    }

    /// Frames an outbound message through every framer, the last added first.
    pub fn frame_message(&self, message: &Message, context: &MessageContext) -> (r: Result<Vec<u8>>)
        ensures
            r matches Ok(v) ==> v@ == stack_frame(self@, message@.data),
            F::infallible() ==> r is Ok,
    {
        let mut data = vstd::slice::slice_to_vec(message.data());
        let mut i = self.framers.len();
        assert(self.framers@.skip(i as int) =~= Seq::<F>::empty());
        while i > 0
            invariant
                i <= self.framers@.len(),
                data@ == stack_frame(self.framers@.skip(i as int), message@.data),
            decreases i,
        {
            let temp = Message::from_bytes(data.as_slice());
            let framed = self.framers[i - 1].frame_message(&temp, context);
            match framed {
                Ok(v) => {
                    assert(self.framers@.skip(i - 1).skip(1) =~= self.framers@.skip(i as int));
                    data = v;
                },
                Err(e) => {
                    return Err(e);
                },
            }
            i -= 1;
        }
        assert(self.framers@.skip(0) =~= self.framers@);
        Ok(data)
    }

    /// Parses inbound data through the stack: each framer in order of addition parses the
    /// first payload the previous one yielded; when one yields nothing the result is
    /// empty; the last framer then parses its input once more and its payloads are the
    /// result. With no framer, the data comes back as one message.
    pub fn parse_data(&mut self, data: &[u8]) -> (r: Result<Vec<(Message, MessageContext)>>)
        ensures
            old(self)@.len() == 0 ==> (r matches Ok(v) && payloads(v@) == seq![data@]),
            old(self)@.len() > 0 && F::infallible() ==> r is Ok,
            r is Ok && old(self)@.len() > 0 ==> final(self)@.len() == old(self)@.len()
                && (exists|mid: F| stack_parses(old(self)@, final(self)@, mid, 0, data@, payloads(r->Ok_0@))),
    {
        let n = self.framers.len();
        if n == 0 {
            let mut v: Vec<(Message, MessageContext)> = Vec::new();
            v.push((Message::from_bytes(data), MessageContext::new()));
            assert(payloads(v@) =~= seq![data@]);
            return Ok(v);
        }
        let ghost before = self.framers@;
        let ghost mut ds: Seq<Seq<u8>> = seq![data@];
        let ghost mut mid: F = self.framers@[n - 1];
        let mut current: Vec<u8> = vstd::slice::slice_to_vec(data);
        let mut i: usize = 0;
        while i < n
            invariant
                n == before.len(),
                n > 0,
                self.framers@.len() == n,
                0 <= i <= n,
                forall|j: int| i <= j < n ==> self.framers@[j] == before[j],
                ds.len() == i + 1,
                ds[0] == data@,
                current@ == ds[i as int],
                forall|j: int| 0 <= j < i ==> #[trigger] before[j].parse_out(ds[j]).len() > 0 && ds[j + 1]
                    == before[j].parse_out(ds[j])[0],
                forall|j: int| 0 <= j < i && j < n - 1 ==> #[trigger] before[j].parse_next(ds[j], self.framers@[j]),
                i == n ==> before[n - 1].parse_next(ds[n - 1], mid),
                i == n ==> self.framers@[n - 1] == mid,
                old(self)@ == before,
            decreases n - i,
        {
            let parsed = self.parse_at(i, current.as_slice())?;
            if parsed.len() == 0 {
                proof {
                    lemma_stack_stops_early(before, self.framers@, mid, ds, i as int, 0);
                    assert(payloads(parsed@) =~= Seq::<Seq<u8>>::empty());
                    assert(stack_parses(old(self)@, self.framers@, mid, 0, data@, payloads(parsed@)));
                }
                return Ok(parsed);
            }
            proof {
                if i == n - 1 {
                    mid = self.framers@[n - 1];
                }
            }
            let next = vstd::slice::slice_to_vec(parsed[0].0.data());
            proof {
                ds = ds.push(next@);
            }
            current = next;
            i += 1;
        }
        let ghost framers_before_last = self.framers@;
        assert(framers_before_last[n - 1] == mid);
        let out = self.parse_at(n - 1, current.as_slice())?;
        proof {
            assert forall|j: int| 0 <= j < n - 1 implies #[trigger] before[j].parse_next(ds[j], self.framers@[j]) by {
                assert(self.framers@[j] == framers_before_last[j]);
            }
            lemma_stack_runs_through(before, self.framers@, mid, ds, payloads(out@), 0);
            assert(stack_parses(old(self)@, self.framers@, mid, 0, data@, payloads(out@)));
        }
        Ok(out)
    }

    fn parse_at(&mut self, i: usize, data: &[u8]) -> (r: Result<Vec<(Message, MessageContext)>>)
        requires
            i < old(self)@.len(),
        ensures
            final(self)@.len() == old(self)@.len(),
            forall|j: int| 0 <= j < old(self)@.len() && j != i ==> final(self)@[j] == old(self)@[j],
            F::infallible() ==> r is Ok,
            r matches Ok(v) ==> payloads(v@) == old(self)@[i as int].parse_out(data@)
                && old(self)@[i as int].parse_next(data@, final(self)@[i as int]),
    {
        let mut framers: Vec<F> = Vec::new();
        std::mem::swap(&mut framers, &mut self.framers);
        let mut f = framers.remove(i);
        let r = f.parse_data(data);
        framers.insert(i, f);
        std::mem::swap(&mut framers, &mut self.framers);
        assert forall|j: int| 0 <= j < old(self)@.len() && j != i implies self.framers@[j] == old(self)@[j] by {}
        r
    }

    /// Calls every framer's `on_attach`, in order, stopping at the first error: succeeds
    /// exactly when every framer attaches.
    pub fn on_attach(&self) -> (r: Result<()>)
        ensures
            r is Ok <==> forall|i: int| 0 <= i < self@.len() ==> #[trigger] self@[i].attaches(),
    {
        let mut i: usize = 0;
        while i < self.framers.len()
            invariant
                i <= self.framers@.len(),
                forall|j: int| 0 <= j < i ==> #[trigger] self.framers@[j].attaches(),
            decreases self.framers@.len() - i,
        {
            match self.framers[i].on_attach() {
                Ok(()) => {},
                Err(e) => {
                    assert(!self@[i as int].attaches());
                    return Err(e);
                },
            }
            i += 1;
        }
        Ok(())
    }

    /// Calls every framer's `on_detach`, in order, stopping at the first error: succeeds
    /// exactly when every framer detaches.
    pub fn on_detach(&self) -> (r: Result<()>)
        ensures
            r is Ok <==> forall|i: int| 0 <= i < self@.len() ==> #[trigger] self@[i].detaches(),
    {
        let mut i: usize = 0;
        while i < self.framers.len()
            invariant
                i <= self.framers@.len(),
                forall|j: int| 0 <= j < i ==> #[trigger] self.framers@[j].detaches(),
            decreases self.framers@.len() - i,
        {
            match self.framers[i].on_detach() {
                Ok(()) => {},
                Err(e) => {
                    assert(!self@[i as int].detaches());
                    return Err(e);
                },
            }
            i += 1;
        }
        Ok(())
    }
}

impl<F: Framer> Default for FramerStack<F> {
    fn default() -> (r: Self)
        ensures
            r@ == Seq::<F>::empty(),
    {
        FramerStack::new()
    }
}

} // verus!
