//! How messages travel: frames of bytes, the handles beside them, and the tokens that find the
//! handles again.
use vstd::prelude::*;
use bytes::Bytes;
use crate::ipc_controller::{frame_tokens, FrameCheck, FrameInbox, ReceivedHandle, SharedState};
use crate::ipc_protocol::{FrameDescriptor, Response, VersionRange};
use crate::ipc_transport::{
    bytes_contents, close_outcome, decode_frame, encode_frame, frame_header, frame_length,
    read_failure, IoError, OpaqueHandle, StdIoTransport, TransportError,
};
use crate::laws::hosting::{answers_to, ends_with};
use crate::text::decimal_text;
use crate::transport_unix::{Arrival, Datagram, UnixSocketTransport};

verus! {

/// The number that four bytes make, the lowest first.
pub open spec fn low_byte_first(h: Seq<u8>) -> int {
    h[0] + 256 * h[1] + 65536 * h[2] + 16777216 * h[3]
}

/// A header is the length, lowest byte first; a payload over the limit, or one whose length four
/// bytes cannot hold, is refused by its length.
pub proof fn header_is_the_length(len: usize, max: usize, r: Result<[u8; 4], TransportError>)
    requires
        call_ensures(frame_header, (len, max), r),
    ensures
        r is Ok <==> len <= max && len < 0x1_0000_0000,
        r is Ok ==> low_byte_first(r->Ok_0@) == len,
        r is Err ==> r->Err_0 == TransportError::FrameTooLarge(len),
{
}

/// A header is read as the number that its bytes make, lowest first; one over the limit is refused
/// by that number.
pub proof fn header_is_read_as_the_length(
    h: &[u8; 4],
    max: usize,
    r: Result<usize, TransportError>,
)
    requires
        call_ensures(frame_length, (h, max), r),
    ensures
        r is Ok <==> low_byte_first(h@) <= max,
        r is Ok ==> r->Ok_0 == low_byte_first(h@),
        r is Err ==> r->Err_0 is FrameTooLarge && (low_byte_first(h@) <= usize::MAX
            ==> r->Err_0->FrameTooLarge_0 == low_byte_first(h@)),
{
}

/// A frame is the length of the payload in four bytes, lowest first, and then the payload.
pub proof fn frame_is_length_and_payload(
    payload: &Bytes,
    max: usize,
    r: Result<Vec<u8>, TransportError>,
)
    requires
        call_ensures(encode_frame, (payload, max), r),
    ensures
        r is Ok <==> bytes_contents(*payload).len() <= max && bytes_contents(*payload).len()
            < 0x1_0000_0000,
        r is Ok ==> r->Ok_0@.len() == 4 + bytes_contents(*payload).len(),
        r is Ok ==> low_byte_first(r->Ok_0@) == bytes_contents(*payload).len(),
        r is Ok ==> r->Ok_0@.skip(4) == bytes_contents(*payload),
        r is Err ==> r->Err_0 is FrameTooLarge,
{
    if r is Ok {
        assert(r->Ok_0@.skip(4) =~= bytes_contents(*payload));
    }
}

/// What was framed is read as it was, whatever follows it; the first bytes of a frame are never
/// taken for the whole.
pub proof fn framed_payload_is_read_back(
    payload: &Bytes,
    max: usize,
    sent: Result<Vec<u8>, TransportError>,
    buf: &Vec<u8>,
    n: usize,
    got: Result<Bytes, TransportError>,
)
    requires
        call_ensures(encode_frame, (payload, max), sent),
        sent is Ok,
        n <= buf@.len(),
        forall|i: int| 0 <= i < n && i < sent->Ok_0@.len() ==> #[trigger] buf@[i] == sent->Ok_0@[i],
        call_ensures(decode_frame, (buf, n, max), got),
    ensures
        n >= sent->Ok_0@.len() ==> got is Ok && bytes_contents(got->Ok_0) == bytes_contents(
            *payload,
        ),
        n < sent->Ok_0@.len() ==> got is Err && got->Err_0 is UnexpectedEof,
{
    let bytes = sent->Ok_0@;
    let p = bytes_contents(*payload);
    let stream = buf@.take(n as int);
    if n >= 4 {
        assert(stream.take(4) =~= crate::ipc_transport::header(p.len()));
        crate::ipc_transport::header_round_trip(p.len());
        if n >= bytes.len() {
            assert forall|i: int| 0 <= i < p.len() implies #[trigger] stream.subrange(
                4,
                4 + p.len() as int,
            )[i] == p[i] by {
                assert(buf@[4 + i] == bytes[4 + i]);
            }
            assert(stream.subrange(4, 4 + p.len() as int) =~= p);
        }
    }
}

/// Whatever the bytes, a frame is read only where its header and all of its payload are there and
/// the limit holds.
pub proof fn frame_is_read_where_it_is_whole(
    buf: &Vec<u8>,
    n: usize,
    max: usize,
    got: Result<Bytes, TransportError>,
)
    requires
        n <= buf@.len(),
        call_ensures(decode_frame, (buf, n, max), got),
    ensures
        got is Ok <==> n >= 4 && low_byte_first(buf@) <= max && n >= 4 + low_byte_first(buf@),
        got is Ok ==> bytes_contents(got->Ok_0) == buf@.subrange(4, 4 + low_byte_first(buf@)),
        n >= 4 && low_byte_first(buf@) > max ==> got is Err && got->Err_0 is FrameTooLarge,
        n < 4 ==> got is Err && got->Err_0 is UnexpectedEof,
{
    let stream = buf@.take(n as int);
    if n >= 4 {
        let h = stream.take(4);
        assert(h[0] == buf@[0] && h[1] == buf@[1] && h[2] == buf@[2] && h[3] == buf@[3]);
        if got is Ok {
            assert(stream.subrange(4, 4 + low_byte_first(buf@)) =~= buf@.subrange(
                4,
                4 + low_byte_first(buf@),
            ));
        }
    }
}

/// The end of a stream inside a frame is told apart from all other failures, which stay as they
/// are; closing a connection that the peer has left is no failure.
pub proof fn failures_are_told_apart(
    e: IoError,
    r: TransportError,
    f: Option<IoError>,
    c: Result<(), TransportError>,
)
    requires
        call_ensures(read_failure, (e,), r),
        call_ensures(close_outcome, (f,), c),
    ensures
        e.kind is UnexpectedEof <==> r is UnexpectedEof,
        !(e.kind is UnexpectedEof) ==> r is Io && r->Io_0 == e,
        c is Err <==> f is Some && !(f->0.kind is NotConnected) && !(f->0.kind is BrokenPipe),
        c is Err ==> c->Err_0 is Io && c->Err_0->Io_0 == f->0,
{
}

/// The text of an error tells what went wrong: the words of the stream, the number of bytes, or
/// what is lacking.
pub proof fn transport_error_says_what_went_wrong(
    e: &TransportError,
    s: String,
    n: u64,
    d: String,
)
    requires
        call_ensures(TransportError::to_text, (e,), s),
        call_ensures(decimal_text, (n,), d),
    ensures
        e is Io ==> s@[0] == 'i' && ends_with(s@, e->Io_0.message@),
        e is Unsupported ==> s@[0] == 'u' && s@[2] == 's' && ends_with(s@, e->Unsupported_0@),
        e is FrameTooLarge && e->FrameTooLarge_0 == n ==> s@ == "frame too large: "@ + d@
            + " bytes"@,
        e is UnexpectedEof ==> s@ == "unexpected end of stream"@,
{
    reveal_strlit("io error: ");
    reveal_strlit("unsupported: ");
    if e is Io {
        let end = e->Io_0.message@;
        assert(s@.skip(s@.len() - end.len()) =~= end);
    }
    if e is Unsupported {
        let end = e->Unsupported_0@;
        assert(s@.skip(s@.len() - end.len()) =~= end);
    }
}

/// Transports keep their streams and have the limit that was set, or one of 64 MiB; only sockets
/// pass handles.
pub proof fn transports_have_their_limits<R, W, S>(
    reader: R,
    writer: W,
    a: StdIoTransport<R, W>,
    b: StdIoTransport<R, W>,
    n: usize,
    c: StdIoTransport<R, W>,
    x: &StdIoTransport<R, W>,
    pipes: bool,
    stream: S,
    d: UnixSocketTransport<S>,
    e: UnixSocketTransport<S>,
    f: UnixSocketTransport<S>,
    y: &UnixSocketTransport<S>,
    sockets: bool,
)
    requires
        call_ensures(StdIoTransport::<R, W>::new, (reader, writer), a),
        call_ensures(StdIoTransport::<R, W>::with_max_frame_size, (b, n), c),
        call_ensures(StdIoTransport::<R, W>::supports_handle_passing, (x,), pipes),
        call_ensures(UnixSocketTransport::<S>::from_stream, (stream,), d),
        call_ensures(UnixSocketTransport::<S>::with_max_frame_size, (e, n), f),
        call_ensures(UnixSocketTransport::<S>::supports_handle_passing, (y,), sockets),
    ensures
        a.reader == reader && a.writer == writer && a.max_frame_size == 64 * 1024 * 1024,
        c.reader == b.reader && c.writer == b.writer && c.max_frame_size == n,
        d.stream == stream && d.max_frame_size == 64 * 1024 * 1024,
        d.pending@.len() == 0 && d.pending_handles@.len() == 0,
        f.stream == e.stream && f.max_frame_size == n && f.pending@ == e.pending@
            && f.pending_handles@ == e.pending_handles@,
        !pipes && sockets,
{
}

/// What arrives on a socket is kept behind what is there, bytes and handles alike; no bytes at all
/// are the end of the stream and change nothing.
pub proof fn arrivals_are_kept_in_order<S>(
    t: &mut UnixSocketTransport<S>,
    buf: &Vec<u8>,
    n: usize,
    handles: Vec<OpaqueHandle>,
    r: Result<(), TransportError>,
)
    requires
        n <= buf@.len(),
        call_ensures(UnixSocketTransport::<S>::received, (t, buf, n, handles), r),
    ensures
        r is Ok <==> n > 0,
        r is Err ==> r->Err_0 is UnexpectedEof && *final(t) == *old(t),
        r is Ok ==> final(t).pending@ == old(t).pending@ + buf@.take(n as int),
        r is Ok ==> final(t).pending_handles@ == old(t).pending_handles@ + handles@,
        final(t).max_frame_size == old(t).max_frame_size,
{
}

/// What one socket sends another receives: once all of a message has arrived, the payload and the
/// handles come out as they went in, and what follows the message is kept; before that the receiver
/// asks for bytes of this message and for no more than are missing.
pub proof fn sent_message_is_received<S, T>(
    sender: &UnixSocketTransport<S>,
    payload: &Bytes,
    handles: Vec<OpaqueHandle>,
    sent: Result<Datagram, TransportError>,
    t: &mut UnixSocketTransport<T>,
    got: Result<Arrival, TransportError>,
)
    requires
        call_ensures(
            UnixSocketTransport::<S>::send_frame_with_handles,
            (sender, payload, handles),
            sent,
        ),
        sent is Ok,
        bytes_contents(*payload).len() <= old(t).max_frame_size,
        forall|i: int|
            0 <= i < old(t).pending@.len() && i < sent->Ok_0.bytes@.len() ==> #[trigger] old(
                t,
            ).pending@[i] == sent->Ok_0.bytes@[i],
        call_ensures(UnixSocketTransport::<T>::next_frame_with_handles, (t,), got),
    ensures
        sent->Ok_0.handles@ == handles@,
        got is Ok,
        old(t).pending@.len() >= sent->Ok_0.bytes@.len() ==> {
            &&& got->Ok_0 is Whole
            &&& bytes_contents(got->Ok_0->payload) == bytes_contents(*payload)
            &&& got->Ok_0->handles@ == old(t).pending_handles@
            &&& final(t).pending@ == old(t).pending@.skip(sent->Ok_0.bytes@.len() as int)
            &&& final(t).pending_handles@.len() == 0
        },
        old(t).pending@.len() < sent->Ok_0.bytes@.len() ==> {
            &&& got->Ok_0 is NeedMore
            &&& 0 < got->Ok_0->wanted <= sent->Ok_0.bytes@.len() - old(t).pending@.len()
            &&& old(t).pending@.len() >= 4 ==> got->Ok_0->wanted == sent->Ok_0.bytes@.len() - old(
                t,
            ).pending@.len()
            &&& *final(t) == *old(t)
        },
{
    let bytes = sent->Ok_0.bytes@;
    let p = bytes_contents(*payload);
    let stream = old(t).pending@;
    crate::ipc_transport::header_round_trip(p.len());
    if stream.len() >= 4 {
        assert(stream.take(4) =~= crate::ipc_transport::header(p.len()));
        if stream.len() >= bytes.len() {
            assert forall|i: int| 0 <= i < p.len() implies #[trigger] stream.subrange(
                4,
                4 + p.len() as int,
            )[i] == p[i] by {
                assert(stream[4 + i] == bytes[4 + i]);
            }
            assert(stream.subrange(4, 4 + p.len() as int) =~= p);
        }
    }
}

/// A message that is over the limit of its socket is not sent.
pub proof fn large_message_is_not_sent<S>(
    sender: &UnixSocketTransport<S>,
    payload: &Bytes,
    handles: Vec<OpaqueHandle>,
    sent: Result<Datagram, TransportError>,
)
    requires
        call_ensures(
            UnixSocketTransport::<S>::send_frame_with_handles,
            (sender, payload, handles),
            sent,
        ),
    ensures
        sent is Ok <==> bytes_contents(*payload).len() <= sender.max_frame_size && bytes_contents(
            *payload,
        ).len() < 0x1_0000_0000,
        sent is Ok ==> sent->Ok_0.bytes@.len() == 4 + bytes_contents(*payload).len(),
        sent is Ok ==> low_byte_first(sent->Ok_0.bytes@) == bytes_contents(*payload).len(),
        sent is Ok ==> sent->Ok_0.bytes@.skip(4) == bytes_contents(*payload),
        sent is Err ==> sent->Err_0 is FrameTooLarge,
{
    if sent is Ok {
        assert(sent->Ok_0.bytes@.skip(4) =~= bytes_contents(*payload));
    }
}

/// Who waits for a response is who was registered under the id that it answers, and waits no longer
/// afterwards; all others go on waiting.
pub proof fn registered_waiter_is_found<T>(
    a: &mut SharedState<T>,
    id: u64,
    waiter: T,
    done: (),
    b: &mut SharedState<T>,
    resp: &Response,
    w: Option<T>,
    other: u64,
)
    requires
        call_ensures(SharedState::<T>::register, (a, id, waiter), done),
        *old(b) == *final(a),
        answers_to(*resp, id),
        call_ensures(SharedState::<T>::resolve, (b, resp), w),
        other != id,
    ensures
        w == Some(waiter),
        !final(b).pending@.contains_key(id),
        final(b).pending@.contains_key(other) <==> old(a).pending@.contains_key(other),
        old(a).pending@.contains_key(other) ==> final(b).pending@[other] == old(a).pending@[other],
{
}

/// Nobody waits at first, and a response that nobody waits for is nobody's.
pub proof fn nobody_waits_at_first<T>(
    s: SharedState<T>,
    a: &mut SharedState<T>,
    resp: &Response,
    w: Option<T>,
)
    requires
        call_ensures(SharedState::<T>::new, (), s),
        *old(a) == s,
        call_ensures(SharedState::<T>::resolve, (a, resp), w),
    ensures
        w is None,
{
}

/// The tokens of a frame are those of its planes in order and then of its fence, or its only one;
/// a frame whose bytes travel inline has none.
pub proof fn tokens_stand_in_order(d: &FrameDescriptor, tokens: Vec<u64>, i: int)
    requires
        call_ensures(frame_tokens, (d,), tokens),
    ensures
        d is LinuxDmabuf && 0 <= i < d->planes@.len() ==> i < tokens@.len() && tokens@[i]
            == d->planes@[i].fd.0,
        d is LinuxDmabuf ==> tokens@.len() == d->planes@.len() + (if d->fence is Some {
            1int
        } else {
            0int
        }),
        d is LinuxDmabuf && d->fence is Some ==> tokens@.last() == (d->fence->0).0,
        d is MacOsIoSurface ==> tokens@.len() == 1 && tokens@[0] == d->io_surface.0,
        d is WindowsDxgiSharedHandle ==> tokens@.len() == 1 && tokens@[0] == d->handle.0,
        d is SharedMemoryImage ==> tokens@.len() == 1 && tokens@[0] == d->shm.0,
        d is CompressedImage && d->payload is Inline ==> tokens@.len() == 0,
        d is CompressedImage && d->payload is Handle ==> tokens@.len() == 1 && tokens@[0]
            == (d->payload->Handle_0).0,
{
}

/// Of the handles under one token the first is taken over.
pub proof fn first_handle_is_taken(handles: Vec<OpaqueHandle>, r: Option<ReceivedHandle>)
    requires
        call_ensures(ReceivedHandle::from_opaque, (handles,), r),
    ensures
        r is Some <==> handles@.len() > 0,
        r is Some ==> r->0.handle == handles@[0],
{
}

/// The handle of a frame in shared memory is filed under the token of the frame, and the frame is
/// looked at under that handle, at its size, where it is a plain RGBA bitmap and not empty; any
/// other frame is not looked at.
pub proof fn filed_frame_is_looked_at(
    a: &mut FrameInbox,
    d: &FrameDescriptor,
    handles: Vec<OpaqueHandle>,
    done: (),
    b: &mut FrameInbox,
    c: Option<FrameCheck>,
)
    requires
        call_ensures(FrameInbox::file_handles, (a, d, handles), done),
        *old(b) == *final(a),
        call_ensures(FrameInbox::take_for_inspection, (b, d), c),
        handles@.len() > 0,
    ensures
        c is Some <==> d is SharedMemoryImage && d->SharedMemoryImage_format is Rgba8888 && d->size
            > 0,
        c is Some ==> c->0.width == d->SharedMemoryImage_width && c->0.height
            == d->SharedMemoryImage_height && c->0.stride == d->stride && c->0.size == d->size
            && c->0.handle == handles@[0],
        final(b).last_frame_valid == old(a).last_frame_valid,
{
}

/// Each token under which handles wait is listed once.
pub proof fn waiting_tokens_are_listed(b: &FrameInbox, tokens: Vec<u64>, token: u64)
    requires
        call_ensures(FrameInbox::debug_list_pending_handle_tokens, (b,), tokens),
    ensures
        tokens@.no_duplicates(),
        tokens@.contains(token) <==> b.pending_handles@.contains_key(token),
{
    assert(tokens@.to_set().contains(token) <==> tokens@.contains(token));
}

/// What the last look found can be asked for any number of times, its bytes once.
pub proof fn last_bytes_are_taken_once(
    b: &FrameInbox,
    valid: bool,
    a: &mut FrameInbox,
    x: Option<Vec<u8>>,
    c: &mut FrameInbox,
    y: Option<Vec<u8>>,
)
    requires
        call_ensures(FrameInbox::last_frame_valid, (b,), valid),
        call_ensures(FrameInbox::take_last_frame_bytes, (a,), x),
        *old(c) == *final(a),
        call_ensures(FrameInbox::take_last_frame_bytes, (c,), y),
    ensures
        valid == b.last_frame_valid,
        x == old(a).last_frame_bytes,
        y is None,
        final(a).last_frame_valid == old(a).last_frame_valid,
{
}

/// The only version that is spoken is the first.
pub proof fn first_version_is_spoken(r: VersionRange)
    requires
        call_ensures(VersionRange::default, (), r),
    ensures
        r.min == 1 && r.max == 1,
{
}

} // verus!
