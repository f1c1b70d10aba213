//! Length-prefixed framing of messages on a byte stream.
//!
//! A frame is a 4-byte big-endian length header followed by that many payload
//! bytes. The header holds the payload length modulo 2^32, as the sender writes
//! it with a 32-bit conversion.

use vstd::prelude::*;
use vstd::slice::{slice_subrange, slice_to_vec};

verus! {

/// Number of bytes of a frame header.
pub const HEADER_LEN: usize = 4;

/// The value range of a 32-bit header: 2^32.
pub open spec fn header_modulus() -> int {
    0x1_0000_0000
}

/// The four big-endian bytes of `n` (for `0 <= n < 2^32`).
pub open spec fn be32(n: int) -> Seq<u8> {
    seq![
        ((n / 0x100_0000) % 0x100) as u8,
        ((n / 0x1_0000) % 0x100) as u8,
        ((n / 0x100) % 0x100) as u8,
        (n % 0x100) as u8,
    ]
}

/// The number that four big-endian bytes denote.
pub open spec fn be32_value(b: Seq<u8>) -> int {
    b[0] * 0x100_0000 + b[1] * 0x1_0000 + b[2] * 0x100 + b[3]
}

/// The frame that carries `payload`.
pub open spec fn frame_of(payload: Seq<u8>) -> Seq<u8> {
    be32(payload.len() as int % header_modulus()) + payload
}

/// The first frame of `buf`, as its payload and the number of bytes it takes,
/// or `None` while `buf` does not yet hold a whole frame.
pub open spec fn first_frame(buf: Seq<u8>) -> Option<(Seq<u8>, int)> {
    if buf.len() < 4 {
        None
    } else {
        let n = be32_value(buf.take(4));
        if buf.len() < 4 + n {
            None
        } else {
            Some((buf.subrange(4, 4 + n), 4 + n))
        }
    }
}

/// The header that announces a payload of `len` bytes: `len` modulo 2^32, big-endian.
pub fn length_prefix(len: usize) -> (h: [u8; 4])
    ensures
        h@ == be32(len as int % header_modulus()),
{
    let wide: u64 = len as u64;
    let n: u64 = wide % 0x1_0000_0000;
    let b0: u8 = ((n / 0x100_0000) % 0x100) as u8;
    let b1: u8 = ((n / 0x1_0000) % 0x100) as u8;
    let b2: u8 = ((n / 0x100) % 0x100) as u8;
    let b3: u8 = (n % 0x100) as u8;
    let h: [u8; 4] = [b0, b1, b2, b3];
    assert(h@ =~= be32(len as int % header_modulus()));
    h
}

/// The payload length that a header announces.
pub fn payload_len(header: [u8; 4]) -> (n: u32)
    ensures
        n as int == be32_value(header@),
{
    let n: u32 = (header[0] as u32) * 0x100_0000 + (header[1] as u32) * 0x1_0000
        + (header[2] as u32) * 0x100 + (header[3] as u32);
    n
}


/// The frame that carries `payload`: its length header, then the payload.
pub fn encode_frame(payload: &[u8]) -> (f: Vec<u8>)
    ensures
        f@ == frame_of(payload@),
{
    let h = length_prefix(payload.len());
    let mut out: Vec<u8> = slice_to_vec(&h);
    let mut body: Vec<u8> = slice_to_vec(payload);
    out.append(&mut body);
    out
}

/// Splits the first frame off `buf`: its payload and the number of bytes the
/// frame takes, or `None` while `buf` holds no whole frame yet.
pub fn decode_frame(buf: &[u8]) -> (r: Option<(Vec<u8>, usize)>)
    ensures
        match r {
            None => first_frame(buf@) is None,
            Some((p, used)) => first_frame(buf@) == Some((p@, used as int)),
        },
{
    if buf.len() < HEADER_LEN {
        return None;
    }
    let header: [u8; 4] = [buf[0], buf[1], buf[2], buf[3]];
    assert(header@ =~= buf@.take(4));
    let n: usize = payload_len(header) as usize;
    let avail: usize = buf.len() - HEADER_LEN;
    if n > avail {
        return None;
    }
    let body = slice_to_vec(slice_subrange(buf, HEADER_LEN, HEADER_LEN + n));
    Some((body, HEADER_LEN + n))
}


/// Four big-endian bytes read back give the number they were written from.
pub proof fn lemma_be32_value_of_be32(n: int)
    requires
        0 <= n < header_modulus(),
    ensures
        be32(n).len() == 4,
        be32_value(be32(n)) == n,
{
    let b = be32(n);
    assert(b[0] == (n / 0x100_0000) % 0x100);
    assert(b[1] == (n / 0x1_0000) % 0x100);
    assert(b[2] == (n / 0x100) % 0x100);
    assert(b[3] == n % 0x100);
    assert(
        (n / 0x100_0000) % 0x100 * 0x100_0000 + (n / 0x1_0000) % 0x100 * 0x1_0000 + (n / 0x100)
            % 0x100 * 0x100 + n % 0x100 == n) by (nonlinear_arith)
        requires
            0 <= n < 0x1_0000_0000,
    ;
}

/// A 4-byte header written back from the number it denotes gives the same bytes.
pub proof fn lemma_be32_of_be32_value(b: Seq<u8>)
    requires
        b.len() == 4,
    ensures
        0 <= be32_value(b) < header_modulus(),
        be32(be32_value(b)) == b,
{
    let n = be32_value(b);
    let (b0, b1, b2, b3) = (b[0] as int, b[1] as int, b[2] as int, b[3] as int);
    assert(0 <= n < 0x1_0000_0000 && (n / 0x100_0000) % 0x100 == b0 && (n / 0x1_0000) % 0x100 == b1
        && (n / 0x100) % 0x100 == b2 && n % 0x100 == b3) by (nonlinear_arith)
        requires
            0 <= b0 < 0x100,
            0 <= b1 < 0x100,
            0 <= b2 < 0x100,
            0 <= b3 < 0x100,
            n == b0 * 0x100_0000 + b1 * 0x1_0000 + b2 * 0x100 + b3,
    ;
    assert(be32(n) =~= b);
}


/// Every payload of fewer than 2^32 bytes comes back out of its frame, whatever
/// bytes follow the frame on the stream, and the frame takes exactly its header
/// and the payload.
pub proof fn law_frame_roundtrip(payload: Seq<u8>, rest: Seq<u8>)
    requires
        payload.len() < header_modulus(),
    ensures
        first_frame(frame_of(payload) + rest) == Some((payload, payload.len() as int + 4)),
{
    let n = payload.len() as int;
    assert(n % header_modulus() == n);
    lemma_be32_value_of_be32(n);
    let buf = frame_of(payload) + rest;
    assert(buf.take(4) =~= be32(n));
    assert(buf.subrange(4, 4 + n) =~= payload);
}

/// Whatever frame is split off a buffer, encoding its payload again gives back
/// exactly the bytes the frame took.
pub proof fn law_frame_reencode(buf: Seq<u8>)
    ensures
        first_frame(buf) matches Some((p, used)) ==> frame_of(p) == buf.take(used),
{
    if let Some((p, used)) = first_frame(buf) {
        let head = buf.take(4);
        lemma_be32_of_be32_value(head);
        let n = be32_value(head);
        assert(p.len() == n);
        assert(p.len() as int % header_modulus() == n);
        assert(frame_of(p) =~= buf.take(used));
    }
}

/// The bytes of the frames of `payloads`, one after another.
pub open spec fn frames_of(payloads: Seq<Seq<u8>>) -> Seq<u8>
    decreases payloads.len(),
{
    if payloads.len() == 0 {
        Seq::empty()
    } else {
        frame_of(payloads[0]) + frames_of(payloads.drop_first())
    }
}

/// Splits a stream into the payloads of its whole frames, in order, and the
/// bytes that follow them.
pub open spec fn frames_in(buf: Seq<u8>) -> (Seq<Seq<u8>>, Seq<u8>)
    decreases buf.len(),
{
    match first_frame(buf) {
        None => (Seq::empty(), buf),
        Some((p, used)) => {
            if 4 <= used <= buf.len() {
                let (ps, tail) = frames_in(buf.skip(used));
                (seq![p] + ps, tail)
            } else {
                (Seq::empty(), buf)
            }
        },
    }
}

/// Message boundaries are kept: a stream made of the frames of `payloads`,
/// followed by bytes that do not yet make a whole frame, splits back into
/// exactly `payloads` and those bytes.
pub proof fn law_frames_stream(payloads: Seq<Seq<u8>>, tail: Seq<u8>)
    requires
        forall|i: int| 0 <= i < payloads.len() ==> (#[trigger] payloads[i]).len() < header_modulus(),
        first_frame(tail) is None,
    ensures
        frames_in(frames_of(payloads) + tail) == (payloads, tail),
    decreases payloads.len(),
{
    if payloads.len() == 0 {
        assert(frames_of(payloads) + tail =~= tail);
    } else {
        let p = payloads[0];
        let more = payloads.drop_first();
        let buf = frames_of(payloads) + tail;
        let after = frames_of(more) + tail;
        assert(buf =~= frame_of(p) + after);
        law_frame_roundtrip(p, after);
        let used = p.len() as int + 4;
        assert(buf.skip(used) =~= after);
        assert forall|i: int| 0 <= i < more.len() implies (#[trigger] more[i]).len() < header_modulus() by {
            assert(more[i] == payloads[i + 1]);
        }
        law_frames_stream(more, tail);
        assert(seq![p] + more =~= payloads);
    }
}

} // verus!
