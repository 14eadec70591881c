//! Framing over a local socket that carries native handles beside the bytes.
//!
//! A socket hands out bytes in pieces of any size.  The transport keeps what has arrived until a
//! frame is whole.
use vstd::prelude::*;
use bytes::Bytes;
use crate::ipc_transport::{
    announced, bytes_contents, encode_frame, fits, frame, frame_length,
    partial_frame_is_truncated, read, read_frame_round_trip, OpaqueHandle, Reading,
    TransportError, DEFAULT_MAX_FRAME_SIZE,
};

verus! {

/// A framed transport over a socket.
pub struct UnixSocketTransport<S> {
    pub stream: S,
    pub max_frame_size: usize,
    /// Bytes that have arrived and are not handed out yet.
    pub pending: Vec<u8>,
    /// Handles that have arrived and are not handed out yet.
    pub pending_handles: Vec<OpaqueHandle>,
}

/// What there is of the next frame.
pub enum Arrival {
    /// All of it, with the handles that arrived since the frame before.
    Whole { payload: Bytes, handles: Vec<OpaqueHandle> },
    /// Not all of it: at least `wanted` more bytes belong to it.
    NeedMore { wanted: usize },
}

/// How many bytes of the next frame, as far as it is known, have not arrived.
pub open spec fn missing(pending: Seq<u8>) -> nat {
    if pending.len() < 4 {
        (4 - pending.len()) as nat
    } else {
        (4 + announced(pending.take(4)) - pending.len()) as nat
    }
}

/// The bytes of pieces that arrived one after the other.
pub open spec fn arrived(pieces: Seq<Seq<u8>>) -> Seq<u8>
    decreases pieces.len(),
{
    if pieces.len() == 0 {
        Seq::empty()
    } else {
        arrived(pieces.drop_last()) + pieces.last()
    }
}

/// However a frame is cut into pieces, the first of them are never taken for the whole frame nor
/// refused, and once all have arrived the frame reads as its payload, with whatever follows it
/// left over.
pub proof fn frame_is_read_whole_however_it_is_cut(
    payload: Seq<u8>,
    rest: Seq<u8>,
    pieces: Seq<Seq<u8>>,
    n: int,
    max: nat,
)
    requires
        fits(payload.len(), max),
        0 <= n <= pieces.len(),
        arrived(pieces) == frame(payload) + rest,
    ensures
        arrived(pieces.take(n)).len() < frame(payload).len() ==> read(
            arrived(pieces.take(n)),
            max,
        ) == Reading::Truncated,
        read(arrived(pieces), max) == (Reading::Frame { payload, rest }),
{
    let part = arrived(pieces.take(n));
    first_pieces_come_first(pieces, n);
    if part.len() < frame(payload).len() {
        assert(part =~= frame(payload).take(part.len() as int)) by {
            assert(part == (frame(payload) + rest).take(part.len() as int));
        }
        partial_frame_is_truncated(payload, part.len() as int, max);
    }
    read_frame_round_trip(payload, rest, max);
}

proof fn first_pieces_come_first(pieces: Seq<Seq<u8>>, n: int)
    requires
        0 <= n <= pieces.len(),
    ensures
        arrived(pieces.take(n)).len() <= arrived(pieces).len(),
        arrived(pieces.take(n)) == arrived(pieces).take(arrived(pieces.take(n)).len() as int),
    decreases pieces.len(),
{
    if n == pieces.len() {
        assert(pieces.take(n) =~= pieces);
        assert(arrived(pieces).take(arrived(pieces).len() as int) =~= arrived(pieces));
    } else {
        let front = pieces.drop_last();
        first_pieces_come_first(front, n);
        assert(front.take(n) =~= pieces.take(n));
        let k = arrived(pieces.take(n)).len() as int;
        assert(arrived(pieces).take(k) =~= arrived(front).take(k));
    }
}

/// A receiver that asks for no more bytes than are missing never receives bytes of the frame
/// after, so that the handles it receives belong to this one.
pub proof fn missing_bytes_end_with_the_frame(pending: Seq<u8>, more: Seq<u8>, max: nat)
    requires
        read(pending, max) == Reading::Truncated,
        more.len() <= missing(pending),
    ensures
        missing(pending) > 0,
        match read(pending + more, max) {
            Reading::Frame { payload, rest } => rest == Seq::<u8>::empty(),
            _ => true,
        },
{
    let all = pending + more;
    if pending.len() >= 4 {
        assert(all.take(4) =~= pending.take(4));
    } else if all.len() == 4 {
        assert(all.take(4) =~= all);
    }
    match read(all, max) {
        Reading::Frame { payload, rest } => {
            assert(rest =~= Seq::<u8>::empty());
        },
        _ => {},
    }
}

/// One message: its bytes and the handles that go with it.
pub struct Datagram {
    pub bytes: Vec<u8>,
    pub handles: Vec<OpaqueHandle>,
}

impl<S> UnixSocketTransport<S> {
    /// A transport with the default size limit.
    pub fn from_stream(stream: S) -> (t: Self)
        ensures
            t.stream == stream,
            t.max_frame_size == DEFAULT_MAX_FRAME_SIZE,
            t.pending@ == Seq::<u8>::empty(),
            t.pending_handles@ == Seq::<OpaqueHandle>::empty(),
    {
        UnixSocketTransport {
            stream,
            max_frame_size: DEFAULT_MAX_FRAME_SIZE,
            pending: Vec::new(),
            pending_handles: Vec::new(),
        }
    }

    /// The same transport with another size limit.
    pub fn with_max_frame_size(self, bytes: usize) -> (t: Self)
        ensures
            t.stream == self.stream,
            t.max_frame_size == bytes,
            t.pending == self.pending,
            t.pending_handles == self.pending_handles,
    {
        let mut t = self;
        t.max_frame_size = bytes;
        t
    }

    /// Sockets carry handles.
    pub fn supports_handle_passing(&self) -> (b: bool)
        ensures
            b,
    {
        true
    }

    /// The message that sends a payload together with handles.
    pub fn send_frame_with_handles(&self, payload: &Bytes, handles: Vec<OpaqueHandle>) -> (r: Result<
        Datagram,
        TransportError,
    >)
        ensures
            if fits(bytes_contents(*payload).len(), self.max_frame_size as nat) {
                r is Ok && r->Ok_0.bytes@ == frame(bytes_contents(*payload)) && r->Ok_0.handles
                    == handles
            } else {
                r == Err::<Datagram, TransportError>(
                    TransportError::FrameTooLarge(bytes_contents(*payload).len() as usize),
                )
            },
    {
        match encode_frame(payload, self.max_frame_size) {
            Ok(bytes) => Ok(Datagram { bytes, handles }),
            Err(e) => Err(e),
        }
    }

    /// Takes in what was received: the first `n` bytes of `buf`, and the handles that came with
    /// them.  No bytes at all means that the peer has closed the socket.
    pub fn received(&mut self, buf: &Vec<u8>, n: usize, handles: Vec<OpaqueHandle>) -> (r: Result<
        (),
        TransportError,
    >)
        requires
            n <= buf@.len(),
        ensures
            final(self).stream == old(self).stream,
            final(self).max_frame_size == old(self).max_frame_size,
            if n == 0 {
                r == Err::<(), TransportError>(TransportError::UnexpectedEof) && *final(self)
                    == *old(self)
            } else {
                &&& r is Ok
                &&& final(self).pending@ == old(self).pending@ + buf@.take(n as int)
                &&& final(self).pending_handles@ == old(self).pending_handles@ + handles@
            },
    {
        if n == 0 {
            return Err(TransportError::UnexpectedEof);
        }
        let piece = &buf.as_slice()[0..n];
        proof {
            assert(piece@ =~= buf@.take(n as int));
        }
        self.pending.extend_from_slice(piece);
        self.pending_handles.extend_from_slice(handles.as_slice());
        Ok(())
    }

    /// Hands out the next frame once it is whole, and keeps what follows it.
    pub fn next_frame_with_handles(&mut self) -> (r: Result<Arrival, TransportError>)
        ensures
            final(self).stream == old(self).stream,
            final(self).max_frame_size == old(self).max_frame_size,
            match read(old(self).pending@, old(self).max_frame_size as nat) {
                Reading::Frame { payload, rest } => {
                    &&& r is Ok && r->Ok_0 is Whole
                    &&& bytes_contents(r->Ok_0->payload) == payload
                    &&& r->Ok_0->handles@ == old(self).pending_handles@
                    &&& final(self).pending@ == rest
                    &&& final(self).pending_handles@ == Seq::<OpaqueHandle>::empty()
                },
                Reading::TooLarge(len) => r is Err && r->Err_0 == TransportError::FrameTooLarge(
                    len as usize,
                ) && *final(self) == *old(self),
                Reading::Truncated => r is Ok && r->Ok_0 is NeedMore && r->Ok_0->wanted == missing(
                    old(self).pending@,
                ) && *final(self) == *old(self),
            },
    {
        let ghost stream = self.pending@;
        let n: usize = self.pending.len();
        if n < 4 {
            return Ok(Arrival::NeedMore { wanted: 4 - n });
        }
        let h: [u8; 4] = [self.pending[0], self.pending[1], self.pending[2], self.pending[3]];
        proof {
            assert(h@ =~= stream.take(4));
        }
        let len: usize = match frame_length(&h, self.max_frame_size) {
            Err(e) => return Err(e),
            Ok(len) => len,
        };
        if n - 4 < len {
            return Ok(Arrival::NeedMore { wanted: len - (n - 4) });
        }
        let rest = self.pending.split_off(4 + len);
        let payload = &self.pending.as_slice()[4..4 + len];
        proof {
            assert(payload@ =~= stream.subrange(4, 4 + len as int));
            assert(rest@ =~= stream.skip(4 + len as int));
        }
        let payload = Bytes::copy_from_slice(payload);
        self.pending = rest;
        let handles = self.pending_handles.split_off(0);
        proof {
            assert(handles@ =~= old(self).pending_handles@);
            assert(self.pending_handles@ =~= Seq::<OpaqueHandle>::empty());
        }
        Ok(Arrival::Whole { payload, handles })
    }
}

} // verus!
