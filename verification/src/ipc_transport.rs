//! Length-prefixed framing.
//!
//! A message travels as a header of four bytes, its length in little-endian order, followed by the
//! payload.  Reading and writing belong to whoever owns the streams; this module says which bytes
//! a frame is made of, and what a reader makes of the bytes that it gets.
use vstd::prelude::*;
use vstd::string::*;
use bytes::Bytes;
use crate::text::{decimal, decimal_text, joined};

verus! {

/// `bytes::Bytes`, a byte buffer that is cheap to share; opaque here.
#[verifier::external_type_specification]
#[verifier::external_body]
pub struct ExBytes(bytes::Bytes);

/// The bytes that a `bytes::Bytes` buffer holds.
pub uninterp spec fn bytes_contents(b: bytes::Bytes) -> Seq<u8>;

/// `Bytes::len` is the number of bytes held.
pub assume_specification[ bytes::Bytes::len ](b: &bytes::Bytes) -> (n: usize)
    ensures
        n == bytes_contents(*b).len(),
;

/// `Bytes::copy_from_slice` makes a buffer that holds a copy of the given bytes.
pub assume_specification[ bytes::Bytes::copy_from_slice ](data: &[u8]) -> (b: bytes::Bytes)
    ensures
        bytes_contents(b) == data@,
;

/// `Bytes::as_ref` gives a view of exactly the bytes held.
#[verifier::external_body]
pub(crate) fn bytes_slice(b: &Bytes) -> (s: &[u8])
    ensures
        s@ == bytes_contents(*b),
{
    b.as_ref()
}

/// Frames larger than this are refused by default (64 MiB).
pub const DEFAULT_MAX_FRAME_SIZE: usize = 67_108_864;

/// The stream failures that are told apart.
#[derive(Debug, Clone, Copy, PartialEq, Eq, Structural)]
pub enum IoKind {
    UnexpectedEof,
    NotConnected,
    BrokenPipe,
    Other,
}

/// A failure of the underlying stream.
#[derive(Debug, Clone, PartialEq, Eq)]
pub struct IoError {
    pub kind: IoKind,
    pub message: String,
}

/// Errors of a framed transport.
#[derive(Debug, Clone, PartialEq, Eq)]
pub enum TransportError {
    Io(IoError),
    /// The length of a frame exceeds the configured limit.
    FrameTooLarge(usize),
    /// The stream ended inside a frame.
    UnexpectedEof,
    /// The transport lacks a capability.
    Unsupported(&'static str),
}

impl TransportError {
    /// The message text of an error.
    pub open spec fn message(self) -> Seq<char> {
        match self {
            TransportError::Io(e) => "io error: "@ + e.message@,
            TransportError::FrameTooLarge(n) => "frame too large: "@ + decimal(n as nat)
                + " bytes"@,
            TransportError::UnexpectedEof => "unexpected end of stream"@,
            TransportError::Unsupported(what) => "unsupported: "@ + what@,
        }
    }

    /// Writes the message text.
    pub fn to_text(&self) -> (s: String)
        ensures
            s@ == self.message(),
    {
        match self {
            TransportError::Io(e) => joined("io error: ", e.message.as_str()),
            TransportError::FrameTooLarge(n) => {
                let mut s = joined("frame too large: ", decimal_text(*n as u64).as_str());
                s.append(" bytes");
                s
            },
            TransportError::UnexpectedEof => "unexpected end of stream".to_owned(),
            TransportError::Unsupported(what) => joined("unsupported: ", what),
        }
    }
}

impl From<IoError> for TransportError {
    fn from(e: IoError) -> (r: Self) {
        TransportError::Io(e)
    }
}

impl vstd::std_specs::convert::FromSpecImpl<IoError> for TransportError {
    open spec fn obeys_from_spec() -> bool {
        true
    }

    open spec fn from_spec(e: IoError) -> Self {
        TransportError::Io(e)
    }
}

/// A native handle that travels beside a frame.
#[derive(Debug, Clone, Copy, PartialEq, Eq, Hash, Structural)]
pub struct OpaqueHandle(pub u64);

/// The four header bytes that announce a payload of `n` bytes.
pub open spec fn header(n: nat) -> Seq<u8> {
    seq![
        (n % 256) as u8,
        ((n / 256) % 256) as u8,
        ((n / 65536) % 256) as u8,
        ((n / 16777216) % 256) as u8,
    ]
}

/// The length that four header bytes announce.
pub open spec fn announced(h: Seq<u8>) -> nat {
    (h[0] + 256 * h[1] + 65536 * h[2] + 16777216 * h[3]) as nat
}

/// The frame of a payload.
pub open spec fn frame(payload: Seq<u8>) -> Seq<u8> {
    header(payload.len()) + payload
}

/// Whether a payload can be framed under a size limit: the limit holds, and the length fits the
/// header.
pub open spec fn fits(len: nat, max: nat) -> bool {
    len <= max && len <= u32::MAX
}

/// What a reader makes of the bytes in front of it.
pub enum Reading {
    /// A complete payload, and the bytes that follow its frame.
    Frame { payload: Seq<u8>, rest: Seq<u8> },
    /// The announced length exceeds the limit.
    TooLarge(nat),
    /// The bytes end inside the frame.
    Truncated,
}

/// Reads one frame off a byte stream under a size limit.
pub open spec fn read(stream: Seq<u8>, max: nat) -> Reading {
    if stream.len() < 4 {
        Reading::Truncated
    } else {
        let len = announced(stream.take(4));
        if len > max {
            Reading::TooLarge(len)
        } else if stream.len() < 4 + len {
            Reading::Truncated
        } else {
            Reading::Frame {
                payload: stream.subrange(4, 4 + len as int),
                rest: stream.skip(4 + len as int),
            }
        }
    }
}

/// The concatenated frames of a list of payloads.
pub open spec fn frames(payloads: Seq<Seq<u8>>) -> Seq<u8>
    decreases payloads.len(),
{
    if payloads.len() == 0 {
        Seq::empty()
    } else {
        frame(payloads.first()) + frames(payloads.drop_first())
    }
}

/// Reads frames until the stream is used up; `None` if some frame cannot be read.
pub open spec fn read_all(stream: Seq<u8>, max: nat) -> Option<Seq<Seq<u8>>>
    decreases stream.len(),
{
    if stream.len() == 0 {
        Some(Seq::empty())
    } else {
        match read(stream, max) {
            Reading::Frame { payload, rest } => if rest.len() < stream.len() {
                match read_all(rest, max) {
                    Some(more) => Some(seq![payload] + more),
                    None => None,
                }
            } else {
                None
            },
            _ => None,
        }
    }
}

/// A header announces the length that it was made for.
pub proof fn header_round_trip(n: nat)
    requires
        n <= u32::MAX,
    ensures
        header(n).len() == 4,
        announced(header(n)) == n,
{
}

/// Reading the frame of a payload gives back that payload and leaves what follows it, whatever
/// follows.
pub proof fn read_frame_round_trip(payload: Seq<u8>, rest: Seq<u8>, max: nat)
    requires
        fits(payload.len(), max),
    ensures
        read(frame(payload) + rest, max) == (Reading::Frame { payload, rest }),
{
    let stream = frame(payload) + rest;
    header_round_trip(payload.len());
    assert(stream.take(4) =~= header(payload.len()));
    assert(stream.subrange(4, 4 + payload.len() as int) =~= payload);
    assert(stream.skip(4 + payload.len() as int) =~= rest);
}

/// Every proper prefix of a frame reads as truncated: a reader never takes a part of a frame for
/// the whole.
pub proof fn partial_frame_is_truncated(payload: Seq<u8>, n: int, max: nat)
    requires
        fits(payload.len(), max),
        0 <= n < frame(payload).len(),
    ensures
        read(frame(payload).take(n), max) == Reading::Truncated,
{
    header_round_trip(payload.len());
    if n >= 4 {
        assert(frame(payload).take(n).take(4) =~= header(payload.len()));
    }
}

/// A stream of frames reads back as the payloads that were written, in order.
pub proof fn stream_round_trip(payloads: Seq<Seq<u8>>, max: nat)
    requires
        forall|i: int| 0 <= i < payloads.len() ==> fits(#[trigger] payloads[i].len(), max),
    ensures
        read_all(frames(payloads), max) == Some(payloads),
    decreases payloads.len(),
{
    if payloads.len() == 0 {
        assert(frames(payloads) =~= Seq::empty());
        assert(payloads =~= Seq::empty());
    } else {
        let first = payloads.first();
        let more = payloads.drop_first();
        assert(fits(payloads[0].len(), max));
        assert forall|i: int| 0 <= i < more.len() implies fits(#[trigger] more[i].len(), max) by {
            assert(more[i] == payloads[i + 1]);
        }
        stream_round_trip(more, max);
        read_frame_round_trip(first, frames(more), max);
        header_round_trip(first.len());
        assert(frames(payloads) == frame(first) + frames(more));
        assert(seq![first] + more =~= payloads);
    }
}

/// The header of a payload of `len` bytes, or the refusal of a payload that is too large.
pub fn frame_header(len: usize, max_frame_size: usize) -> (r: Result<[u8; 4], TransportError>)
    ensures
        fits(len as nat, max_frame_size as nat) ==> r is Ok && r->Ok_0@ == header(len as nat),
        !fits(len as nat, max_frame_size as nat) ==> r == Err::<[u8; 4], TransportError>(
            TransportError::FrameTooLarge(len),
        ),
{
    if len > max_frame_size {
        return Err(TransportError::FrameTooLarge(len));
    }
    if len > 0xFFFF_FFFF {
        return Err(TransportError::FrameTooLarge(len));
    }
    let h: [u8; 4] = [
        (len % 256) as u8,
        ((len / 256) % 256) as u8,
        ((len / 65536) % 256) as u8,
        ((len / 16777216) % 256) as u8,
    ];
    proof {
        assert(h@ =~= header(len as nat));
    }
    Ok(h)
}

/// The payload length that a header announces, or the refusal of one that is too large.
pub fn frame_length(h: &[u8; 4], max_frame_size: usize) -> (r: Result<usize, TransportError>)
    ensures
        announced(h@) <= max_frame_size ==> r is Ok && r->Ok_0 == announced(h@),
        announced(h@) > max_frame_size ==> r == Err::<usize, TransportError>(
            TransportError::FrameTooLarge(announced(h@) as usize),
        ),
{
    let len: usize = h[0] as usize + 256 * (h[1] as usize) + 65536 * (h[2] as usize) + 16777216 * (
    h[3] as usize);
    if len > max_frame_size {
        return Err(TransportError::FrameTooLarge(len));
    }
    Ok(len)
}

/// The bytes to put on the wire for a payload, or the refusal of a payload that is too large.
pub fn encode_frame(payload: &Bytes, max_frame_size: usize) -> (r: Result<Vec<u8>, TransportError>)
    ensures
        fits(bytes_contents(*payload).len(), max_frame_size as nat) ==> r is Ok && r->Ok_0@
            == frame(bytes_contents(*payload)),
        !fits(bytes_contents(*payload).len(), max_frame_size as nat) ==> r == Err::<
            Vec<u8>,
            TransportError,
        >(TransportError::FrameTooLarge(bytes_contents(*payload).len() as usize)),
{
    let len: usize = payload.len();
    match frame_header(len, max_frame_size) {
        Err(e) => Err(e),
        Ok(h) => {
            let mut buf: Vec<u8> = Vec::new();
            buf.push(h[0]);
            buf.push(h[1]);
            buf.push(h[2]);
            buf.push(h[3]);
            buf.extend_from_slice(bytes_slice(payload));
            proof {
                assert(buf@ =~= frame(bytes_contents(*payload)));
            }
            Ok(buf)
        },
    }
}

/// Reads the frame at the front of the first `n` bytes of `buf`.
pub fn decode_frame(buf: &Vec<u8>, n: usize, max_frame_size: usize) -> (r: Result<
    Bytes,
    TransportError,
>)
    requires
        n <= buf.len(),
    ensures
        match read(buf@.take(n as int), max_frame_size as nat) {
            Reading::Frame { payload, rest } => r is Ok && bytes_contents(r->Ok_0) == payload,
            Reading::TooLarge(len) => r == Err::<Bytes, TransportError>(
                TransportError::FrameTooLarge(len as usize),
            ),
            Reading::Truncated => r == Err::<Bytes, TransportError>(TransportError::UnexpectedEof),
        },
{
    let ghost stream = buf@.take(n as int);
    if n < 4 {
        return Err(TransportError::UnexpectedEof);
    }
    let h: [u8; 4] = [buf[0], buf[1], buf[2], buf[3]];
    proof {
        assert(h@ =~= stream.take(4));
    }
    let len: usize = match frame_length(&h, max_frame_size) {
        Err(e) => return Err(e),
        Ok(len) => len,
    };
    if n - 4 < len {
        return Err(TransportError::UnexpectedEof);
    }
    let payload = &buf.as_slice()[4..4 + len];
    proof {
        assert(payload@ =~= stream.subrange(4, 4 + len as int));
    }
    Ok(Bytes::copy_from_slice(payload))
}

/// What a failed read means: the end of the stream inside a frame is reported as such.
pub fn read_failure(e: IoError) -> (r: TransportError)
    ensures
        e.kind == IoKind::UnexpectedEof ==> r == TransportError::UnexpectedEof,
        e.kind != IoKind::UnexpectedEof ==> r == TransportError::Io(e),
{
    if e.kind == IoKind::UnexpectedEof {
        TransportError::UnexpectedEof
    } else {
        TransportError::Io(e)
    }
}

/// What the outcome of shutting the writer down means: a peer that is already gone is no error.
pub fn close_outcome(failure: Option<IoError>) -> (r: Result<(), TransportError>)
    ensures
        match failure {
            None => r is Ok,
            Some(e) => if e.kind == IoKind::NotConnected || e.kind == IoKind::BrokenPipe {
                r is Ok
            } else {
                r == Err::<(), TransportError>(TransportError::Io(e))
            },
        },
{
    match failure {
        None => Ok(()),
        Some(e) => {
            if e.kind == IoKind::NotConnected || e.kind == IoKind::BrokenPipe {
                Ok(())
            } else {
                Err(TransportError::Io(e))
            }
        },
    }
}

/// A framed transport over a reader and a writer.
pub struct StdIoTransport<R, W> {
    pub reader: R,
    pub writer: W,
    pub max_frame_size: usize,
}

impl<R, W> StdIoTransport<R, W> {
    /// A transport with the default size limit.
    pub fn new(reader: R, writer: W) -> (t: Self)
        ensures
            t.reader == reader,
            t.writer == writer,
            t.max_frame_size == DEFAULT_MAX_FRAME_SIZE,
    {
        StdIoTransport { reader, writer, max_frame_size: DEFAULT_MAX_FRAME_SIZE }
    }

    /// The same transport with another size limit.
    pub fn with_max_frame_size(self, bytes: usize) -> (t: Self)
        ensures
            t.reader == self.reader,
            t.writer == self.writer,
            t.max_frame_size == bytes,
    {
        StdIoTransport { reader: self.reader, writer: self.writer, max_frame_size: bytes }
    }

    /// Pipes carry bytes only.
    pub fn supports_handle_passing(&self) -> (b: bool)
        ensures
            !b,
    {
        false
    }
}

} // verus!
