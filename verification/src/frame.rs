//! The wire protocol: every message travels as a two-byte big-endian length
//! header followed by the message's UTF-8 bytes.

use vstd::prelude::*;
use crate::text::{lossy_text, lossy_utf8};

verus! {

/// Number of bytes in a frame header.
pub const HEADER_LEN: usize = 2;

/// The header written for a body of `len` bytes: the length is taken modulo
/// 2^16, as a `u16` cast does, and written high byte first.
pub open spec fn spec_header(len: nat) -> Seq<u8> {
    seq![((len % 65536) / 256) as u8, (len % 256) as u8]
}

/// The whole frame that carries `body`.
pub open spec fn spec_frame(body: Seq<u8>) -> Seq<u8> {
    spec_header(body.len()) + body
}

/// The body length that a reader takes from the header bytes `hi`, `lo`.
pub open spec fn spec_header_length(hi: u8, lo: u8) -> nat {
    (hi as nat) * 256 + (lo as nat)
}

/// Encodes the header for a body of `len` bytes.
pub fn encode_header(len: usize) -> (header: [u8; 2])
    ensures
        header@ == spec_header(len as nat),
        header@[0] as nat * 256 + header@[1] as nat == len as nat % 65536,
{
    let low: usize = len % 65536;
    let hi: u8 = (low / 256) as u8;
    let lo: u8 = (len % 256) as u8;
    let header: [u8; 2] = [hi, lo];
    assert(header@ =~= spec_header(len as nat));
    proof {
        law_header_is_big_endian(len as nat);
    }
    header
}

/// Reads the body length out of a received header.
pub fn header_length(header: [u8; 2]) -> (len: usize)
    ensures
        len as nat == spec_header_length(header@[0], header@[1]),
        len < 65536,
        spec_header(len as nat) == header@,
{
    let hi: usize = header[0] as usize;
    let lo: usize = header[1] as usize;
    proof {
        law_header_length_inverts(header@[0], header@[1], 0);
        assert(header@ =~= seq![header@[0], header@[1]]);
    }
    hi * 256 + lo
}

/// Frames `msg` for the wire: the header for its byte length, then its bytes.
pub fn encode_frame(msg: &str) -> (frame: Vec<u8>)
    ensures
        frame@ == spec_frame(vstd::utf8::encode_utf8(msg@)),
        frame@.len() == HEADER_LEN + vstd::utf8::encode_utf8(msg@).len(),
        frame@[0] as nat * 256 + frame@[1] as nat == vstd::utf8::encode_utf8(msg@).len() % 65536,
        frame@.subrange(HEADER_LEN as int, frame@.len() as int) == vstd::utf8::encode_utf8(msg@),
{
    let bytes: &[u8] = msg.as_bytes();
    let header: [u8; 2] = encode_header(bytes.len());
    let mut frame: Vec<u8> = Vec::new();
    frame.push(header[0]);
    frame.push(header[1]);
    let mut i: usize = 0;
    while i < bytes.len()
        invariant
            i <= bytes@.len(),
            bytes@ == vstd::utf8::encode_utf8(msg@),
            header@ == spec_header(bytes@.len()),
            frame@ == header@ + bytes@.subrange(0, i as int),
        decreases bytes@.len() - i,
    {
        frame.push(bytes[i]);
        i = i + 1;
        assert(frame@ =~= header@ + bytes@.subrange(0, i as int));
    }
    assert(bytes@.subrange(0, i as int) =~= bytes@);
    proof {
        law_frame_layout(bytes@);
    }
    frame
}

/// What one exact read of the stream gave: the bytes asked for, the end of
/// the stream before they all came, or another failure.
pub enum Received<T> {
    Bytes(T),
    EndOfStream,
    Failed,
}

/// What reading one frame gave: its text, a cleanly closed stream, or a
/// failure.
pub enum FrameOutcome {
    Message(String),
    Closed,
    Failed,
}

/// What to do once the header read has finished: read a body of the given
/// length, or stop with an outcome.
pub enum HeaderStep {
    ReadBody(usize),
    Finish(FrameOutcome),
}

/// Decides what follows the read of a frame's header: a full header asks for
/// the body that it announces; the end of the stream closes it; a failure
/// fails.
pub fn on_header(read: Received<[u8; 2]>) -> (step: HeaderStep)
    ensures
        match read {
            Received::Bytes(h) => step == HeaderStep::ReadBody(
                spec_header_length(h@[0], h@[1]) as usize,
            ),
            Received::EndOfStream => step == HeaderStep::Finish(FrameOutcome::Closed),
            Received::Failed => step == HeaderStep::Finish(FrameOutcome::Failed),
        },
{
    match read {
        Received::Bytes(h) => HeaderStep::ReadBody(header_length(h)),
        Received::EndOfStream => HeaderStep::Finish(FrameOutcome::Closed),
        Received::Failed => HeaderStep::Finish(FrameOutcome::Failed),
    }
}

/// Decides the outcome of reading a frame's body: the body's text, decoded
/// lossily; the end of the stream closes it; a failure fails.
pub fn on_body(read: Received<Vec<u8>>) -> (outcome: FrameOutcome)
    ensures
        match read {
            Received::Bytes(b) => outcome matches FrameOutcome::Message(t) && t@ == lossy_utf8(b@)
                && (vstd::utf8::valid_utf8(b@) ==> t@ == vstd::utf8::decode_utf8(b@)),
            Received::EndOfStream => outcome is Closed,
            Received::Failed => outcome is Failed,
        },
{
    match read {
        Received::Bytes(b) => FrameOutcome::Message(lossy_text(b.as_slice())),
        Received::EndOfStream => FrameOutcome::Closed,
        Received::Failed => FrameOutcome::Failed,
    }
}

/// The header is the body length written in big-endian base 256: two bytes,
/// the high one first, whose value `high * 256 + low` is the length modulo
/// 2^16 (the length itself whenever it fits in 16 bits).
pub proof fn law_header_is_big_endian(len: nat)
    ensures
        spec_header(len).len() == HEADER_LEN,
        spec_header(len)[0] as nat * 256 + spec_header(len)[1] as nat == len % 65536,
        len < 65536 ==> spec_header(len)[0] as nat == len / 256 && spec_header(len)[1] as nat
            == len % 256,
{
    let m = len % 65536;
    assert(m / 256 < 256) by (nonlinear_arith)
        requires m < 65536;
    assert((m / 256) * 256 + len % 256 == m) by (nonlinear_arith)
        requires m == len % 65536;
    assert(len < 65536 ==> m == len);
}

/// Reading a header is the inverse of writing one: every two bytes read as a
/// length below 2^16, and writing that length gives the same two bytes back;
/// a length below 2^16, written and read, is the same length.
pub proof fn law_header_length_inverts(hi: u8, lo: u8, len: nat)
    ensures
        spec_header_length(hi, lo) < 65536,
        spec_header(spec_header_length(hi, lo)) == seq![hi, lo],
        len < 65536 ==> spec_header_length(spec_header(len)[0], spec_header(len)[1]) == len,
{
    let n = spec_header_length(hi, lo);
    assert(n < 65536);
    law_header_is_big_endian(n);
    assert(n / 256 == hi as nat && n % 256 == lo as nat) by (nonlinear_arith)
        requires n == hi as nat * 256 + lo as nat, lo < 256;
    assert(spec_header(n) =~= seq![hi, lo]);
    law_header_is_big_endian(len);
}

/// A frame is the two header bytes, whose big-endian value is the body's
/// length modulo 2^16, followed by the body itself.
pub proof fn law_frame_layout(body: Seq<u8>)
    ensures
        spec_frame(body).len() == HEADER_LEN + body.len(),
        spec_frame(body)[0] as nat * 256 + spec_frame(body)[1] as nat == body.len() % 65536,
        spec_frame(body).subrange(HEADER_LEN as int, spec_frame(body).len() as int) == body,
{
    law_header_is_big_endian(body.len());
    assert(spec_frame(body).subrange(2, spec_frame(body).len() as int) =~= body);
}

/// A frame carries its message intact: for any text whose UTF-8 encoding is
/// shorter than 2^16 bytes, the header of its frame announces exactly the
/// length of that encoding, the bytes after the header are that encoding, and
/// they decode to the text again.
pub proof fn lemma_frame_round_trip(text: Seq<char>)
    requires
        vstd::utf8::encode_utf8(text).len() < 65536,
    ensures
        ({
            let body = vstd::utf8::encode_utf8(text);
            let frame = spec_frame(body);
            &&& frame.len() == HEADER_LEN + body.len()
            &&& spec_header_length(frame[0], frame[1]) == body.len()
            &&& frame.subrange(HEADER_LEN as int, frame.len() as int) == body
            &&& vstd::utf8::valid_utf8(body)
            &&& vstd::utf8::decode_utf8(body) == text
        }),
{
    let body = vstd::utf8::encode_utf8(text);
    let frame = spec_frame(body);
    let n = body.len();
    assert(frame.subrange(2, frame.len() as int) =~= body);
    assert(((n % 65536) / 256) as u8 as nat * 256 + (n % 256) as u8 as nat == n) by (nonlinear_arith)
        requires n < 65536;
    vstd::utf8::encode_utf8_valid_utf8(text);
    vstd::utf8::encode_utf8_decode_utf8(text);
}

} // verus!
