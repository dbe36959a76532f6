use vstd::prelude::*;

use bytes::{Buf, BufMut, BytesMut};

verus! {

/// `bytes::BytesMut`, the growable byte buffer that frames are read from and
/// written to.
#[verifier::external_type_specification]
#[verifier::external_body]
pub struct ExBytesMut(BytesMut);

/// The bytes a `BytesMut` holds, in order.
pub uninterp spec fn buffer_contents(buf: BytesMut) -> Seq<u8>;

/// `BytesMut::len`: the number of bytes the buffer holds.
#[verifier::external_body]
fn buffer_len(buf: &BytesMut) -> (n: usize)
    ensures
        n == buffer_contents(*buf).len(),
{
    buf.len()
}

/// The byte at position `i` of the buffer, read through `BytesMut`'s
/// `Deref` to `[u8]`.
#[verifier::external_body]
fn buffer_byte(buf: &BytesMut, i: usize) -> (b: u8)
    requires
        i < buffer_contents(*buf).len(),
    ensures
        b == buffer_contents(*buf)[i as int],
{
    buf[i]
}

/// A copy of the first `n` bytes of the buffer (`buf[..n].to_vec()`, through
/// `BytesMut`'s `Deref` to `[u8]`).
#[verifier::external_body]
fn buffer_prefix(buf: &BytesMut, n: usize) -> (prefix: Vec<u8>)
    requires
        n <= buffer_contents(*buf).len(),
    ensures
        prefix@ == buffer_contents(*buf).take(n as int),
{
    buf[..n].to_vec()
}

/// `Buf::advance` on `BytesMut`: drops the first `n` bytes of the buffer.
/// It panics past the end, which the precondition rules out.
#[verifier::external_body]
fn buffer_advance(buf: &mut BytesMut, n: usize)
    requires
        n <= buffer_contents(*old(buf)).len(),
    ensures
        buffer_contents(*final(buf)) == buffer_contents(*old(buf)).skip(n as int),
{
    buf.advance(n)
}

/// `BufMut::put_slice` on `BytesMut`: appends `bytes` to the buffer. It
/// panics when the new length overflows `usize`, which the precondition rules
/// out; running out of memory aborts, which no contract can state.
#[verifier::external_body]
fn buffer_put_slice(buf: &mut BytesMut, bytes: &[u8])
    requires
        buffer_contents(*old(buf)).len() + bytes@.len() <= usize::MAX,
    ensures
        buffer_contents(*final(buf)) == buffer_contents(*old(buf)) + bytes@,
{
    buf.put_slice(bytes)
}

/// Carriage return, the first byte of a frame's end mark.
pub const CR: u8 = 13;

/// Line feed, the second byte of a frame's end mark.
pub const LF: u8 = 10;

/// The end mark of a frame: `\r\n`.
pub open spec fn end_mark() -> Seq<u8> {
    seq![CR, LF]
}

/// An end mark starts at position `i` of `s`.
pub open spec fn end_mark_at(s: Seq<u8>, i: int) -> bool {
    0 <= i && i + 1 < s.len() && s[i] == CR && s[i + 1] == LF
}

/// `s` holds an end mark somewhere.
pub open spec fn has_end_mark(s: Seq<u8>) -> bool {
    exists|i: int| end_mark_at(s, i)
}

/// The first end mark of `s` starts at `i`.
pub open spec fn first_end_mark_at(s: Seq<u8>, i: int) -> bool {
    end_mark_at(s, i) && forall|j: int| 0 <= j < i ==> !end_mark_at(s, j)
}

/// The frame that carries `payload`: the payload, then the end mark.
pub open spec fn framed(payload: Seq<u8>) -> Seq<u8> {
    payload + end_mark()
}

/// Splits the first frame off `s`: the bytes before its first end mark, and
/// what follows the end mark. `None` when no frame is complete yet.
pub open spec fn split_frame(s: Seq<u8>) -> Option<(Seq<u8>, Seq<u8>)> {
    if has_end_mark(s) {
        let i = choose|i: int| first_end_mark_at(s, i);
        Some((s.take(i), s.skip(i + 2)))
    } else {
        None
    }
}

/// The first end mark of a sequence is the one `split_frame` cuts at.
proof fn lemma_split_at_first_mark(s: Seq<u8>, i: int)
    requires
        first_end_mark_at(s, i),
    ensures
        split_frame(s) == Some((s.take(i), s.skip(i + 2))),
{
    assert(has_end_mark(s));
    let k = choose|k: int| first_end_mark_at(s, k);
    assert(first_end_mark_at(s, k));
    if k < i {
        assert(!end_mark_at(s, k));
    } else if i < k {
        assert(!end_mark_at(s, i));
    }
}

/// Law: reading back a written frame gives the payload and leaves the bytes
/// that followed it, for every payload that holds no end mark of its own
/// (a JSON document never does: it escapes control characters).
pub proof fn lemma_read_after_write(payload: Seq<u8>, rest: Seq<u8>)
    requires
        !has_end_mark(payload),
    ensures
        split_frame(framed(payload) + rest) == Some((payload, rest)),
{
    let s = framed(payload) + rest;
    let n = payload.len() as int;
    assert(end_mark_at(s, n));
    assert forall|j: int| 0 <= j < n implies !end_mark_at(s, j) by {
        if end_mark_at(s, j) {
            if j + 1 < n {
                assert(end_mark_at(payload, j));
            } else {
                assert(s[j + 1] == CR);
            }
        }
    }
    lemma_split_at_first_mark(s, n);
    assert(s.take(n) =~= payload);
    assert(s.skip(n + 2) =~= rest);
}

/// Law: bytes that arrive after a complete frame do not disturb it: with
/// more bytes appended, the buffer yields the same first frame, followed by
/// what followed it before and then the new bytes.
pub proof fn lemma_later_bytes_keep_frame(s: Seq<u8>, more: Seq<u8>)
    requires
        has_end_mark(s),
    ensures
        split_frame(s + more) == Some((split_frame(s).unwrap().0, split_frame(s).unwrap().1 + more)),
{
    let i = choose|i: int| first_end_mark_at(s, i);
    lemma_first_mark_exists(s);
    assert(first_end_mark_at(s, i));
    let t = s + more;
    assert(end_mark_at(t, i));
    assert forall|j: int| 0 <= j < i implies !end_mark_at(t, j) by {
        assert(!end_mark_at(s, j));
    }
    lemma_split_at_first_mark(s, i);
    lemma_split_at_first_mark(t, i);
    assert(t.take(i) =~= s.take(i));
    assert(t.skip(i + 2) =~= s.skip(i + 2) + more);
}

/// A sequence that holds an end mark has a first one.
proof fn lemma_first_mark_exists(s: Seq<u8>)
    requires
        has_end_mark(s),
    ensures
        exists|i: int| first_end_mark_at(s, i),
{
    let i = choose|i: int| end_mark_at(s, i);
    lemma_first_mark_below(s, i);
}

/// Below any end mark lies a first one.
proof fn lemma_first_mark_below(s: Seq<u8>, i: int)
    requires
        end_mark_at(s, i),
    ensures
        exists|k: int| first_end_mark_at(s, k),
    decreases i,
{
    if forall|j: int| 0 <= j < i ==> !end_mark_at(s, j) {
        assert(first_end_mark_at(s, i));
    } else {
        let j = choose|j: int| 0 <= j < i && end_mark_at(s, j);
        lemma_first_mark_below(s, j);
    }
}

/// Why a frame could not be written.
#[derive(Debug, Clone, Copy, PartialEq, Eq, Structural)]
pub enum CodecError {
    /// The buffer would grow past `usize::MAX` bytes.
    FrameTooLarge,
}

/// The framing of messages on a byte stream: each message is a payload
/// followed by `\r\n`.
#[derive(Debug)]
pub struct MessageCodec;

impl MessageCodec {
    pub fn new() -> (codec: Self) {
        MessageCodec
    }

    /// Writes one frame: appends `payload` and the end mark to `dst`. When
    /// the grown buffer would not fit in memory's address range, writes
    /// nothing and reports `FrameTooLarge`.
    pub fn encode(&mut self, payload: &[u8], dst: &mut BytesMut) -> (written: Result<
        (),
        CodecError,
    >)
        ensures
            written is Ok <==> buffer_contents(*old(dst)).len() + payload@.len() + 2
                <= usize::MAX,
            written is Ok ==> buffer_contents(*final(dst)) == buffer_contents(*old(dst))
                + framed(payload@),
            written is Err ==> written == Err::<(), CodecError>(CodecError::FrameTooLarge)
                && buffer_contents(*final(dst)) == buffer_contents(*old(dst)),
    {
        let len: usize = buffer_len(dst);
        if len > usize::MAX - 2 || payload.len() > usize::MAX - 2 - len {
            return Err(CodecError::FrameTooLarge);
        }
        let frame = frame(payload);
        buffer_put_slice(dst, frame.as_slice());
        Ok(())
    }

    /// Reads one frame: when `src` holds a complete frame, takes it off the
    /// front of `src` (end mark included) and returns its payload; otherwise
    /// returns `None` and leaves `src` as it was.
    pub fn decode(&mut self, src: &mut BytesMut) -> (payload: Option<Vec<u8>>)
        ensures
            match split_frame(buffer_contents(*old(src))) {
                None => payload is None && buffer_contents(*final(src)) == buffer_contents(
                    *old(src),
                ),
                Some((p, rest)) => payload matches Some(v) && v@ == p && buffer_contents(
                    *final(src),
                ) == rest,
            },
    {
        let ghost s = buffer_contents(*src);
        let len: usize = buffer_len(src);
        if len < 2 {
            assert(!has_end_mark(s));
            return None;
        }
        let end: usize = len - 1;
        let mut i: usize = 0;
        while i < end
            invariant
                s == buffer_contents(*src),
                s == buffer_contents(*old(src)),
                len == s.len(),
                end == len - 1,
                i <= end,
                forall|j: int| 0 <= j < i ==> !end_mark_at(s, j),
            decreases end - i,
        {
            if buffer_byte(src, i) == CR && buffer_byte(src, i + 1) == LF {
                proof {
                    lemma_split_at_first_mark(s, i as int);
                }
                let payload = buffer_prefix(src, i);
                buffer_advance(src, i + 2);
                return Some(payload);
            }
            i = i + 1;
        }
        assert(!has_end_mark(s));
        None
    }
}

/// The frame that carries `payload`: the payload, then `\r\n`.
pub fn frame(payload: &[u8]) -> (bytes: Vec<u8>)
    ensures
        bytes@ == framed(payload@),
{
    let mut bytes: Vec<u8> = Vec::new();
    let mut i: usize = 0;
    while i < payload.len()
        invariant
            i <= payload@.len(),
            bytes@ == payload@.take(i as int),
        decreases payload@.len() - i,
    {
        bytes.push(payload[i]);
        i = i + 1;
        assert(bytes@ =~= payload@.take(i as int));
    }
    bytes.push(CR);
    bytes.push(LF);
    assert(bytes@ =~= framed(payload@));
    bytes
}

} // verus!
