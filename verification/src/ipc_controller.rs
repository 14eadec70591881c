//! A controller whose engine runs in a render server process.
//!
//! The controller decides which request goes out in which state, under which id, and what a reply
//! means; the router decides who gets a response, which event the host sees, and which native
//! handles belong to which frame.  Moving the messages is left to whoever owns the connection.
use vstd::prelude::*;
use vstd::string::*;
use vstd::std_specs::hash::*;
use vstd::std_specs::iter::IteratorSpec;
use std::collections::HashMap;
use crate::controller::{
    counted, ensure_initialized, ensure_ready, failure, not_initialized, not_ready, opt_config,
    ConfigView, ConsoleLevel, ControllerCapabilities, ControllerConfig, ControllerError,
    ControllerEvent, ControllerEventView, ErrorView, InputEvent, NavigationStatus, PhysicalSize,
};
use crate::engine::{gradient, gradient_at, gradient_byte};
use crate::ipc_protocol::{
    ButtonState, Capabilities, CapabilitiesView, ControllerConfigView, Envelope, EnvelopeView,
    ErrorCode, Event, EventView, FrameDescriptor, FrameView, InputEventView, IpcInputEvent,
    Message, MessageView, MouseButton, PathString, PayloadLocator, PayloadView, PixelFormat,
    Real32, Request, RequestView, Response, ResponseView, SurfaceDescriptor, VersionRange,
    PROTOCOL_MAX_VERSION, PROTOCOL_MIN_VERSION, PROTOCOL_VERSION,
};
use crate::ipc_transport::OpaqueHandle;
use crate::text::{copy_all, copy_opt, joined, opt_view, views};
use crate::winit_runtime::NativeSurfaceHandles;

verus! {

broadcast use vstd::std_specs::hash::group_hash_axioms;

/// How long a reply is waited for, in seconds.
pub const DEFAULT_REQUEST_TIMEOUT_SECS: u64 = 5;

/// Whoever waits for the response to a request, by the id of the request.
pub struct SharedState<T> {
    pub pending: HashMap<u64, T>,
}

/// The id that a response answers.
pub fn response_key(resp: &Response) -> (id: u64)
    ensures
        id == crate::server::reply_target(resp@),
{
    match resp {
        Response::Ack { in_reply_to } => *in_reply_to,
        Response::Error { in_reply_to, code: _, message: _ } => *in_reply_to,
        Response::InitAck { in_reply_to, chosen_version: _, server_name: _, capabilities: _ } => {
            *in_reply_to
        },
        Response::InvokeResult { in_reply_to, ok: _, data: _, error: _ } => *in_reply_to,
    }
}

impl<T> SharedState<T> {
    /// Nobody waits.
    pub fn new() -> (s: Self)
        ensures
            s.pending@ == Map::<u64, T>::empty(),
    {
        SharedState { pending: HashMap::new() }
    }

    /// Registers who waits for the response to a request.
    pub fn register(&mut self, id: u64, waiter: T)
        ensures
            final(self).pending@ == old(self).pending@.insert(id, waiter),
    {
        self.pending.insert(id, waiter);
    }

    /// Takes out who waits for a response.
    pub fn resolve(&mut self, resp: &Response) -> (w: Option<T>)
        ensures
            ({
                let id = crate::server::reply_target(resp@);
                &&& final(self).pending@ == old(self).pending@.remove(id)
                &&& old(self).pending@.contains_key(id) ==> w == Some(old(self).pending@[id])
                &&& !old(self).pending@.contains_key(id) ==> w is None
            }),
    {
        let key: u64 = response_key(resp);
        self.pending.remove(&key)
    }
}

/// The handle tokens of a frame: of the planes in order and then the fence, or the single one.
pub open spec fn tokens_of(d: FrameView) -> Seq<u64> {
    match d {
        FrameView::LinuxDmabuf { width, height, fourcc, modifier, planes, fence } => {
            let fds = Seq::new(planes.len(), |i: int| planes[i].fd.0);
            match fence {
                Some(f) => fds.push(f.0),
                None => fds,
            }
        },
        FrameView::MacOsIoSurface { width, height, pixel_format, io_surface } => {
            seq![io_surface.0]
        },
        FrameView::WindowsDxgiSharedHandle { width, height, dxgi_format, handle } => {
            seq![handle.0]
        },
        FrameView::SharedMemoryImage { width, height, stride, format, shm, size } => seq![shm.0],
        FrameView::CompressedImage { width, height, format, payload } => match payload {
            PayloadView::Handle(h) => seq![h.0],
            PayloadView::Inline(_) => Seq::empty(),
        },
    }
}

/// Collects the handle tokens of a frame.
pub fn frame_tokens(d: &FrameDescriptor) -> (tokens: Vec<u64>)
    ensures
        tokens@ == tokens_of(d@),
{
    let mut tokens: Vec<u64> = Vec::new();
    match d {
        FrameDescriptor::LinuxDmabuf { width: _, height: _, fourcc: _, modifier: _, planes, fence }
        => {
            let mut i: usize = 0;
            while i < planes.len()
                invariant
                    i <= planes.len(),
                    tokens@ =~= Seq::new(i as nat, |k: int| planes@[k].fd.0),
                decreases planes.len() - i,
            {
                tokens.push(planes[i].fd.0);
                i += 1;
            }
            match fence {
                Some(f) => tokens.push(f.0),
                None => {},
            }
        },
        FrameDescriptor::MacOsIoSurface { width: _, height: _, pixel_format: _, io_surface } => {
            tokens.push(io_surface.0);
        },
        FrameDescriptor::WindowsDxgiSharedHandle { width: _, height: _, dxgi_format: _, handle } => {
            tokens.push(handle.0);
        },
        FrameDescriptor::SharedMemoryImage {
            width: _,
            height: _,
            stride: _,
            format: _,
            shm,
            size: _,
        } => {
            tokens.push(shm.0);
        },
        FrameDescriptor::CompressedImage { width: _, height: _, format: _, payload } => {
            match payload {
                PayloadLocator::Handle(h) => tokens.push(h.0),
                PayloadLocator::Inline(_) => {},
            }
        },
    }
    proof {
        assert(tokens@ =~= tokens_of(d@));
    }
    tokens
}

/// Handles by token, after the first `n` tokens each got the handle at their position.
pub open spec fn paired(
    held: Map<u64, Seq<OpaqueHandle>>,
    tokens: Seq<u64>,
    handles: Seq<OpaqueHandle>,
    n: nat,
) -> Map<u64, Seq<OpaqueHandle>>
    decreases n,
{
    if n == 0 {
        held
    } else {
        let before = paired(held, tokens, handles, (n - 1) as nat);
        if n - 1 < handles.len() {
            before.insert(tokens[n - 1], seq![handles[n - 1]])
        } else {
            before
        }
    }
}

/// Handles by token after a frame with the given tokens and handles arrived: a single token gets
/// all handles, several tokens get one each in order.
pub open spec fn filed(
    held: Map<u64, Seq<OpaqueHandle>>,
    tokens: Seq<u64>,
    handles: Seq<OpaqueHandle>,
) -> Map<u64, Seq<OpaqueHandle>> {
    if tokens.len() == 0 {
        held
    } else if tokens.len() == 1 {
        held.insert(tokens[0], handles)
    } else {
        paired(held, tokens, handles, tokens.len())
    }
}

/// The handles by token that a table holds.
pub open spec fn held_by(table: Map<u64, Vec<OpaqueHandle>>) -> Map<u64, Seq<OpaqueHandle>> {
    table.map_values(|v: Vec<OpaqueHandle>| v@)
}

/// What came of looking at a frame in shared memory.
pub enum Inspection {
    /// The memory could not be read.
    Unreadable,
    /// The memory holds these bytes.
    Read { data: Vec<u8> },
}

/// A frame in shared memory that is to be looked at.
#[derive(Debug, Clone, Copy, PartialEq, Eq, Structural)]
pub struct FrameCheck {
    pub width: u32,
    pub height: u32,
    pub stride: u32,
    pub handle: OpaqueHandle,
    /// Bytes to read.
    pub size: u64,
}

/// A native handle that was taken over.
#[derive(Debug, PartialEq, Eq)]
pub struct ReceivedHandle {
    pub handle: OpaqueHandle,
}

impl ReceivedHandle {
    /// The first of the handles that came under one token.
    pub fn from_opaque(handles: Vec<OpaqueHandle>) -> (r: Option<Self>)
        ensures
            handles@.len() > 0 ==> r == Some(ReceivedHandle { handle: handles@[0] }),
            handles@.len() == 0 ==> r is None,
    {
        if handles.len() > 0 {
            Some(ReceivedHandle { handle: handles[0] })
        } else {
            None
        }
    }
}

/// Native handles that wait for their frames, and what the last inspected frame was.
pub struct FrameInbox {
    pub pending_handles: HashMap<u64, Vec<OpaqueHandle>>,
    pub last_frame_valid: bool,
    pub last_frame_bytes: Option<Vec<u8>>,
}

/// The frame that is to be looked at, if the descriptor is of a plain RGBA bitmap in shared memory,
/// a handle came for it, and it is not empty.
pub open spec fn to_inspect(held: Map<u64, Seq<OpaqueHandle>>, d: FrameView) -> Option<FrameCheck> {
    match d {
        FrameView::SharedMemoryImage { width, height, stride, format, shm, size } => if format
            == PixelFormat::Rgba8888 && held.contains_key(shm.0) && held[shm.0].len() > 0 && size
            > 0 {
            Some(FrameCheck { width, height, stride, handle: held[shm.0][0], size })
        } else {
            None
        },
        _ => None,
    }
}

/// The handles that stay after a frame was taken for inspection: its own are gone.
pub open spec fn left_after(held: Map<u64, Seq<OpaqueHandle>>, d: FrameView) -> Map<
    u64,
    Seq<OpaqueHandle>,
> {
    match d {
        FrameView::SharedMemoryImage { width, height, stride, format, shm, size } => if format
            == PixelFormat::Rgba8888 {
            held.remove(shm.0)
        } else {
            held
        },
        _ => held,
    }
}

impl FrameInbox {
    /// Nothing received.
    pub fn new() -> (b: Self)
        ensures
            b.held() == Map::<u64, Seq<OpaqueHandle>>::empty(),
            !b.last_frame_valid,
            b.last_frame_bytes is None,
    {
        let b = FrameInbox {
            pending_handles: HashMap::new(),
            last_frame_valid: false,
            last_frame_bytes: None,
        };
        proof {
            assert(b.held() =~= Map::empty());
        }
        b
    }

    /// The handles that wait, by token.
    pub open spec fn held(&self) -> Map<u64, Seq<OpaqueHandle>> {
        held_by(self.pending_handles@)
    }

    fn put(&mut self, token: u64, handles: Vec<OpaqueHandle>)
        ensures
            final(self).held() == old(self).held().insert(token, handles@),
            final(self).last_frame_valid == old(self).last_frame_valid,
            final(self).last_frame_bytes == old(self).last_frame_bytes,
    {
        self.pending_handles.insert(token, handles);
        proof {
            assert(self.held() =~= old(self).held().insert(token, handles@));
        }
    }

    fn take(&mut self, token: u64) -> (r: Option<Vec<OpaqueHandle>>)
        ensures
            final(self).held() == old(self).held().remove(token),
            final(self).last_frame_valid == old(self).last_frame_valid,
            final(self).last_frame_bytes == old(self).last_frame_bytes,
            old(self).held().contains_key(token) ==> r is Some && r->0@ == old(self).held()[token],
            !old(self).held().contains_key(token) ==> r is None,
    {
        let r = self.pending_handles.remove(&token);
        proof {
            assert(self.held() =~= old(self).held().remove(token));
        }
        r
    }

    /// Files the handles that came with a frame under the tokens of the frame.
    pub fn file_handles(&mut self, d: &FrameDescriptor, handles: Vec<OpaqueHandle>)
        ensures
            final(self).held() == filed(old(self).held(), tokens_of(d@), handles@),
            final(self).last_frame_valid == old(self).last_frame_valid,
            final(self).last_frame_bytes == old(self).last_frame_bytes,
    {
        let tokens = frame_tokens(d);
        if tokens.len() == 0 {
            return ;
        }
        if tokens.len() == 1 {
            self.put(tokens[0], handles);
            return ;
        }
        let ghost before = self.held();
        let mut i: usize = 0;
        while i < tokens.len()
            invariant
                i <= tokens.len(),
                self.held() == paired(before, tokens@, handles@, i as nat),
                self.last_frame_valid == old(self).last_frame_valid,
                self.last_frame_bytes == old(self).last_frame_bytes,
            decreases tokens.len() - i,
        {
            if i < handles.len() {
                let mut one: Vec<OpaqueHandle> = Vec::new();
                one.push(handles[i]);
                proof {
                    assert(one@ =~= seq![handles@[i as int]]);
                }
                self.put(tokens[i], one);
            }
            i += 1;
        }
    }

    /// Takes a frame out for inspection, if it is to be looked at.
    pub fn take_for_inspection(&mut self, d: &FrameDescriptor) -> (c: Option<FrameCheck>)
        ensures
            c == to_inspect(old(self).held(), d@),
            final(self).held() == left_after(old(self).held(), d@),
            final(self).last_frame_valid == old(self).last_frame_valid,
            final(self).last_frame_bytes == old(self).last_frame_bytes,
    {
        match d {
            FrameDescriptor::SharedMemoryImage { width, height, stride, format, shm, size } => {
                if *format == PixelFormat::Rgba8888 {
                    match self.take(shm.0) {
                        Some(handles) => {
                            if handles.len() > 0 && *size > 0 {
                                Some(
                                    FrameCheck {
                                        width: *width,
                                        height: *height,
                                        stride: *stride,
                                        handle: handles[0],
                                        size: *size,
                                    },
                                )
                            } else {
                                None
                            }
                        },
                        None => None,
                    }
                } else {
                    None
                }
            },
            _ => None,
        }
    }

    /// Hands out the handle of a token; a token serves once.
    pub fn consume_handle(&mut self, token: u64) -> (r: Result<ReceivedHandle, ControllerError>)
        ensures
            final(self).held() == old(self).held().remove(token),
            final(self).last_frame_valid == old(self).last_frame_valid,
            final(self).last_frame_bytes == old(self).last_frame_bytes,
            if !old(self).held().contains_key(token) {
                failure(r) == Some(ErrorView::InvalidState("handle token not found"@))
            } else if old(self).held()[token].len() == 0 {
                failure(r) == Some(ErrorView::InvalidState("no handles attached for token"@))
            } else {
                r == Ok::<ReceivedHandle, ControllerError>(
                    ReceivedHandle { handle: old(self).held()[token][0] },
                )
            },
    {
        match self.take(token) {
            None => Err(ControllerError::InvalidState("handle token not found")),
            Some(handles) => match ReceivedHandle::from_opaque(handles) {
                Some(h) => Ok(h),
                None => Err(ControllerError::InvalidState("no handles attached for token")),
            },
        }
    }

    /// The tokens that handles wait under, each once, in no particular order.
    pub fn debug_list_pending_handle_tokens(&self) -> (tokens: Vec<u64>)
        ensures
            tokens@.no_duplicates(),
            tokens@.to_set() == self.held().dom(),
    {
        let mut out: Vec<u64> = Vec::new();
        let keys = self.pending_handles.keys();
        let ghost all = keys.remaining().unref();
        for k in it: keys
            invariant
                it.seq().unref() == all,
                all.no_duplicates(),
                all.to_set() == self.pending_handles@.dom(),
                out@ == all.take(it.index() as int),
        {
            out.push(*k);
            proof {
                assert(out@ =~= all.take(it.index() + 1));
            }
        }
        proof {
            assert(out@ =~= all);
            assert(self.held().dom() =~= self.pending_handles@.dom());
        }
        out
    }
}

/// Where the byte of channel `c` of the pixel in column `x` and row `y` stands.
pub open spec fn byte_index(stride: nat, x: nat, y: nat, c: nat) -> nat {
    y * stride + x * 4 + c
}

/// Whether a byte of the frame is there and is the byte of the gradient.
pub open spec fn byte_agrees(data: Seq<u8>, stride: nat, x: nat, y: nat, c: nat) -> bool {
    byte_index(stride, x, y, c) < data.len() && data[byte_index(stride, x, y, c) as int]
        == gradient_byte(x, y, c)
}

/// Whether byte `(x, y, c)` is looked at before byte `(x1, y1, c1)`: row by row, pixel by pixel,
/// channel by channel.
pub open spec fn before(x: nat, y: nat, c: nat, x1: nat, y1: nat, c1: nat) -> bool {
    y < y1 || (y == y1 && (x < x1 || (x == x1 && c < c1)))
}

/// All bytes that are looked at before byte `(x1, y1, c1)` of a frame of the given width agree.
pub open spec fn agrees_up_to(
    data: Seq<u8>,
    stride: nat,
    width: nat,
    x1: nat,
    y1: nat,
    c1: nat,
) -> bool {
    forall|x: nat, y: nat, c: nat|
        x < width && c < 4 && before(x, y, c, x1, y1, c1) ==> #[trigger] byte_agrees(
            data,
            stride,
            x,
            y,
            c,
        )
}

/// The bytes hold the gradient of the given geometry.
pub open spec fn shows_gradient(
    data: Seq<u8>,
    width: nat,
    height: nat,
    stride: nat,
) -> bool {
    forall|x: nat, y: nat, c: nat|
        x < width && y < height && c < 4 ==> #[trigger] byte_agrees(data, stride, x, y, c)
}

/// Byte `(x, y, c)` is the first that does not agree.
pub open spec fn first_disagreement(
    data: Seq<u8>,
    width: nat,
    height: nat,
    stride: nat,
    x: nat,
    y: nat,
    c: nat,
) -> bool {
    &&& x < width && y < height && c < 4
    &&& agrees_up_to(data, stride, width, x, y, c)
    &&& !byte_agrees(data, stride, x, y, c)
}

/// The first byte that does not agree is there, and differs.
pub open spec fn differs(data: Seq<u8>, width: nat, height: nat, stride: nat) -> bool {
    exists|x: nat, y: nat, c: nat| #[trigger]
        first_disagreement(data, width, height, stride, x, y, c) && byte_index(stride, x, y, c)
            < data.len()
}

/// What comparing a frame with the gradient finds: whether it shows the gradient, or nothing where
/// the frame ends before a difference is found.
pub open spec fn judged(data: Seq<u8>, width: nat, height: nat, stride: nat) -> Option<bool> {
    if shows_gradient(data, width, height, stride) {
        Some(true)
    } else if differs(data, width, height, stride) {
        Some(false)
    } else {
        None
    }
}

/// There is only one first byte that does not agree.
proof fn first_disagreement_is_unique(
    data: Seq<u8>,
    width: nat,
    height: nat,
    stride: nat,
    x: nat,
    y: nat,
    c: nat,
    x1: nat,
    y1: nat,
    c1: nat,
)
    requires
        first_disagreement(data, width, height, stride, x, y, c),
        first_disagreement(data, width, height, stride, x1, y1, c1),
    ensures
        x == x1 && y == y1 && c == c1,
{
    if before(x, y, c, x1, y1, c1) {
        assert(byte_agrees(data, stride, x, y, c));
    } else if before(x1, y1, c1, x, y, c) {
        assert(byte_agrees(data, stride, x1, y1, c1));
    }
}

/// Compares a frame with the gradient.
pub fn inspect_frame(data: &[u8], width: u32, height: u32, stride: u32) -> (r: Option<bool>)
    ensures
        r == judged(data@, width as nat, height as nat, stride as nat),
{
    let ghost w = width as nat;
    let ghost h = height as nat;
    let ghost s = stride as nat;
    let len: u128 = data.len() as u128;
    let mut y: u32 = 0;
    while y < height
        invariant
            y <= height,
            len == data@.len(),
            w == width,
            h == height,
            s == stride,
            agrees_up_to(data@, s, w, 0, y as nat, 0),
        decreases height - y,
    {
        let mut x: u32 = 0;
        while x < width
            invariant
                y < height,
                x <= width,
                len == data@.len(),
                w == width,
                h == height,
                s == stride,
                agrees_up_to(data@, s, w, x as nat, y as nat, 0),
            decreases width - x,
        {
            let mut c: u8 = 0;
            while c < 4
                invariant
                    y < height,
                    x < width,
                    c <= 4,
                    len == data@.len(),
                    w == width,
                    h == height,
                    s == stride,
                    agrees_up_to(data@, s, w, x as nat, y as nat, c as nat),
                decreases 4 - c,
            {
                proof {
                    assert(y * stride <= 0xFFFF_FFFF * 0xFFFF_FFFF) by (nonlinear_arith)
                        requires
                            0 <= y <= 0xFFFF_FFFF,
                            0 <= stride <= 0xFFFF_FFFF,
                    ;
                }
                let idx: u128 = (y as u128) * (stride as u128) + (x as u128) * 4 + (c as u128);
                proof {
                    assert(idx == byte_index(s, x as nat, y as nat, c as nat));
                }
                if idx >= len {
                    proof {
                        assert(first_disagreement(data@, w, h, s, x as nat, y as nat, c as nat));
                        assert(!byte_agrees(data@, s, x as nat, y as nat, c as nat));
                        if differs(data@, w, h, s) {
                            let (x1, y1, c1) = choose|x1: nat, y1: nat, c1: nat| #[trigger]
                                first_disagreement(data@, w, h, s, x1, y1, c1) && byte_index(
                                    s,
                                    x1,
                                    y1,
                                    c1,
                                ) < data@.len();
                            first_disagreement_is_unique(
                                data@,
                                w,
                                h,
                                s,
                                x as nat,
                                y as nat,
                                c as nat,
                                x1,
                                y1,
                                c1,
                            );
                        }
                    }
                    return None;
                }
                let want: u8 = if c == 0 {
                    (x % 256) as u8
                } else if c == 1 {
                    (y % 256) as u8
                } else if c == 2 {
                    0x80
                } else {
                    0xFF
                };
                if data[idx as usize] != want {
                    proof {
                        assert(first_disagreement(data@, w, h, s, x as nat, y as nat, c as nat));
                        assert(!byte_agrees(data@, s, x as nat, y as nat, c as nat));
                    }
                    return Some(false);
                }
                proof {
                    assert(byte_agrees(data@, s, x as nat, y as nat, c as nat));
                }
                c += 1;
            }
            x += 1;
            proof {
                assert forall|x0: nat, y0: nat, c0: nat|
                    x0 < w && c0 < 4 && before(x0, y0, c0, x as nat, y as nat, 0) implies #[trigger]
                    byte_agrees(data@, s, x0, y0, c0) by {
                    assert(before(x0, y0, c0, (x - 1) as nat, y as nat, 4));
                }
            }
        }
        y += 1;
        proof {
            assert forall|x0: nat, y0: nat, c0: nat|
                x0 < w && c0 < 4 && before(x0, y0, c0, 0, y as nat, 0) implies #[trigger]
                byte_agrees(data@, s, x0, y0, c0) by {
                assert(before(x0, y0, c0, w, (y - 1) as nat, 0));
            }
        }
    }
    proof {
        assert forall|x0: nat, y0: nat, c0: nat|
            x0 < w && y0 < h && c0 < 4 implies #[trigger] byte_agrees(data@, s, x0, y0, c0) by {
            assert(before(x0, y0, c0, 0, h, 0));
        }
    }
    Some(true)
}

/// The gradient that the demonstration engine draws is what the host looks for.
pub proof fn demo_gradient_passes_inspection(width: nat, height: nat)
    ensures
        shows_gradient(gradient(width, height), width, height, 4 * width),
{
    assert forall|x: nat, y: nat, c: nat|
        x < width && y < height && c < 4 implies #[trigger] byte_agrees(
        gradient(width, height),
        4 * width,
        x,
        y,
        c,
    ) by {
        gradient_at(width, height, x, y, c);
    }
}

impl FrameInbox {
    /// Keeps what an inspection found: the bytes of a frame that shows the gradient, nothing of
    /// any other.  A frame that ends too early leaves the last finding as it was.
    pub fn record(&mut self, check: &FrameCheck, found: Inspection)
        ensures
            final(self).held() == old(self).held(),
            match found {
                Inspection::Unreadable => !final(self).last_frame_valid
                    && final(self).last_frame_bytes is None,
                Inspection::Read { data } => match judged(
                    data@,
                    check.width as nat,
                    check.height as nat,
                    check.stride as nat,
                ) {
                    Some(true) => final(self).last_frame_valid && final(self).last_frame_bytes
                        == Some(data),
                    Some(false) => !final(self).last_frame_valid
                        && final(self).last_frame_bytes is None,
                    None => final(self).last_frame_valid == old(self).last_frame_valid
                        && final(self).last_frame_bytes == old(self).last_frame_bytes,
                },
            },
    {
        match found {
            Inspection::Unreadable => {
                self.last_frame_valid = false;
                self.last_frame_bytes = None;
            },
            Inspection::Read { data } => {
                match inspect_frame(data.as_slice(), check.width, check.height, check.stride) {
                    Some(ok) => {
                        self.last_frame_valid = ok;
                        if ok {
                            self.last_frame_bytes = Some(data);
                        } else {
                            self.last_frame_bytes = None;
                        }
                    },
                    None => {},
                }
            },
        }
    }

    /// Whether the last inspected frame showed the gradient.
    pub fn last_frame_valid(&self) -> (b: bool)
        ensures
            b == self.last_frame_valid,
    {
        self.last_frame_valid
    }

    /// Takes the bytes of the last inspected frame out.
    pub fn take_last_frame_bytes(&mut self) -> (b: Option<Vec<u8>>)
        ensures
            b == old(self).last_frame_bytes,
            final(self).last_frame_bytes is None,
            final(self).last_frame_valid == old(self).last_frame_valid,
            final(self).held() == old(self).held(),
    {
        self.last_frame_bytes.take()
    }
}

/// The size of a frame.
pub open spec fn frame_size(d: FrameView) -> (u32, u32) {
    match d {
        FrameView::LinuxDmabuf { width, height, fourcc, modifier, planes, fence } => (
            width,
            height,
        ),
        FrameView::MacOsIoSurface { width, height, pixel_format, io_surface } => (width, height),
        FrameView::WindowsDxgiSharedHandle { width, height, dxgi_format, handle } => (
            width,
            height,
        ),
        FrameView::SharedMemoryImage { width, height, stride, format, shm, size } => (
            width,
            height,
        ),
        FrameView::CompressedImage { width, height, format, payload } => (width, height),
    }
}

/// The console level that a host sees.
pub open spec fn host_level(l: crate::ipc_protocol::ConsoleLevel) -> ConsoleLevel {
    match l {
        crate::ipc_protocol::ConsoleLevel::Debug => ConsoleLevel::Debug,
        crate::ipc_protocol::ConsoleLevel::Info => ConsoleLevel::Info,
        crate::ipc_protocol::ConsoleLevel::Warn => ConsoleLevel::Warn,
        crate::ipc_protocol::ConsoleLevel::Error => ConsoleLevel::Error,
    }
}

/// The navigation status that a host sees.
pub open spec fn host_status(s: crate::ipc_protocol::NavigationStatus) -> NavigationStatus {
    match s {
        crate::ipc_protocol::NavigationStatus::Started => NavigationStatus::Started,
        crate::ipc_protocol::NavigationStatus::Committed => NavigationStatus::Committed,
        crate::ipc_protocol::NavigationStatus::Finished => NavigationStatus::Finished,
        crate::ipc_protocol::NavigationStatus::Failed => NavigationStatus::Failed,
    }
}

/// The event that a host sees for an event of the server.
pub open spec fn host_event(e: EventView) -> ControllerEventView {
    match e {
        EventView::ConsoleMessage { level, message, source, line, column } => {
            ControllerEventView::Console {
                level: host_level(level),
                message,
                source,
                line,
                column,
            }
        },
        EventView::Navigation { status, url, http_status } => ControllerEventView::Navigation {
            status: host_status(status),
            url,
            http_status,
        },
        EventView::DevToolsPortOpened { port, url } => ControllerEventView::DevToolsPortOpened {
            port,
            url,
        },
        EventView::FrameReady { frame_id, descriptor } => ControllerEventView::FrameReady {
            width: frame_size(descriptor).0,
            height: frame_size(descriptor).1,
            frame_id,
        },
    }
}

fn size_of_frame(d: &FrameDescriptor) -> (s: (u32, u32))
    ensures
        s == frame_size(d@),
{
    match d {
        FrameDescriptor::LinuxDmabuf {
            width,
            height,
            fourcc: _,
            modifier: _,
            planes: _,
            fence: _,
        } => (*width, *height),
        FrameDescriptor::MacOsIoSurface { width, height, pixel_format: _, io_surface: _ } => (
            *width,
            *height,
        ),
        FrameDescriptor::WindowsDxgiSharedHandle { width, height, dxgi_format: _, handle: _ } => (
            *width,
            *height,
        ),
        FrameDescriptor::SharedMemoryImage {
            width,
            height,
            stride: _,
            format: _,
            shm: _,
            size: _,
        } => (*width, *height),
        FrameDescriptor::CompressedImage { width, height, format: _, payload: _ } => (
            *width,
            *height,
        ),
    }
}

/// Maps an event of the server to the event that a host sees.
pub fn map_event(e: Event) -> (r: ControllerEvent)
    ensures
        r@ == host_event(e@),
{
    match e {
        Event::ConsoleMessage { level, message, source, line, column } => {
            let level = match level {
                crate::ipc_protocol::ConsoleLevel::Debug => ConsoleLevel::Debug,
                crate::ipc_protocol::ConsoleLevel::Info => ConsoleLevel::Info,
                crate::ipc_protocol::ConsoleLevel::Warn => ConsoleLevel::Warn,
                crate::ipc_protocol::ConsoleLevel::Error => ConsoleLevel::Error,
            };
            ControllerEvent::Console { level, message, source, line, column }
        },
        Event::Navigation { status, url, http_status } => {
            let status = match status {
                crate::ipc_protocol::NavigationStatus::Started => NavigationStatus::Started,
                crate::ipc_protocol::NavigationStatus::Committed => NavigationStatus::Committed,
                crate::ipc_protocol::NavigationStatus::Finished => NavigationStatus::Finished,
                crate::ipc_protocol::NavigationStatus::Failed => NavigationStatus::Failed,
            };
            ControllerEvent::Navigation { status, url, http_status }
        },
        Event::DevToolsPortOpened { port, url } => ControllerEvent::DevToolsPortOpened {
            port,
            url,
        },
        Event::FrameReady { frame_id, descriptor } => {
            let (width, height) = size_of_frame(&descriptor);
            ControllerEvent::FrameReady { width, height, frame_id }
        },
    }
}

/// What is to be done with a received message.
pub enum Inbound<T> {
    /// Hand the response to whoever waits for it.
    Deliver { to: T, response: Response },
    /// Report the event to the host, and look at the frame first if there is one to look at.
    Report { event: ControllerEvent, check: Option<FrameCheck> },
    /// Nothing.
    Ignored,
}

/// The frame of an event, if it announces one.
pub open spec fn frame_of(e: EventView) -> Option<FrameView> {
    match e {
        EventView::FrameReady { frame_id, descriptor } => Some(descriptor),
        _ => None,
    }
}

/// The handles that wait once those that came with a frame are filed.
pub open spec fn held_with(
    held: Map<u64, Seq<OpaqueHandle>>,
    d: FrameView,
    handles: Option<Vec<OpaqueHandle>>,
) -> Map<u64, Seq<OpaqueHandle>> {
    match handles {
        Some(h) => filed(held, tokens_of(d), h@),
        None => held,
    }
}

/// Takes a received message: routes a response to whoever waits for it, maps an event for the
/// host, and files the handles that came with a frame.  `handles` is absent where the transport
/// carries none.
pub fn receive<T>(
    shared: &mut SharedState<T>,
    inbox: &mut FrameInbox,
    env: Envelope,
    handles: Option<Vec<OpaqueHandle>>,
) -> (r: Inbound<T>)
    ensures
        match env.message {
            Message::Response(resp) => {
                let id = crate::server::reply_target(resp@);
                &&& final(shared).pending@ == old(shared).pending@.remove(id)
                &&& *final(inbox) == *old(inbox)
                &&& if old(shared).pending@.contains_key(id) {
                    r == (Inbound::Deliver { to: old(shared).pending@[id], response: resp })
                } else {
                    r is Ignored
                }
            },
            Message::Event(e) => {
                &&& *final(shared) == *old(shared)
                &&& final(inbox).last_frame_valid == old(inbox).last_frame_valid
                &&& final(inbox).last_frame_bytes == old(inbox).last_frame_bytes
                &&& r is Report
                &&& r->event@ == host_event(e@)
                &&& match frame_of(e@) {
                    Some(d) => {
                        let held = held_with(old(inbox).held(), d, handles);
                        r->check == to_inspect(held, d) && final(inbox).held() == left_after(
                            held,
                            d,
                        )
                    },
                    None => r->check is None && final(inbox).held() == old(inbox).held(),
                }
            },
            Message::Request(_) => r is Ignored && *final(shared) == *old(shared) && *final(inbox)
                == *old(inbox),
        },
{
    match env.message {
        Message::Response(resp) => match shared.resolve(&resp) {
            Some(to) => Inbound::Deliver { to, response: resp },
            None => Inbound::Ignored,
        },
        Message::Event(e) => {
            let mut check: Option<FrameCheck> = None;
            match &e {
                Event::FrameReady { frame_id: _, descriptor } => {
                    match handles {
                        Some(h) => inbox.file_handles(descriptor, h),
                        None => {},
                    }
                    check = inbox.take_for_inspection(descriptor);
                },
                _ => {},
            }
            Inbound::Report { event: map_event(e), check }
        },
        Message::Request(_) => Inbound::Ignored,
    }
}

/// Every response reaches whoever registered for it, once: a second response under the same id is
/// ignored, and other waiters are not disturbed.
pub proof fn response_is_delivered_once<T>(pending: Map<u64, T>, id: u64, waiter: T, other: u64)
    requires
        other != id,
    ensures
        pending.insert(id, waiter)[id] == waiter,
        !pending.insert(id, waiter).remove(id).contains_key(id),
        pending.insert(id, waiter).remove(id).contains_key(other) == pending.contains_key(other),
        pending.contains_key(other) ==> pending.insert(id, waiter).remove(id)[other]
            == pending[other],
{
}

/// A handle token serves once: after it was consumed it is unknown.
pub proof fn token_serves_once(held: Map<u64, Seq<OpaqueHandle>>, token: u64)
    ensures
        !held.remove(token).contains_key(token),
{
}

/// Where each token of a frame is different and a handle came for each, every token gets the handle
/// at its position.
pub proof fn tokens_get_their_handles(
    held: Map<u64, Seq<OpaqueHandle>>,
    tokens: Seq<u64>,
    handles: Seq<OpaqueHandle>,
    n: nat,
    i: int,
)
    requires
        tokens.no_duplicates(),
        n <= tokens.len(),
        tokens.len() <= handles.len(),
        0 <= i < n,
    ensures
        paired(held, tokens, handles, n).contains_key(tokens[i]),
        paired(held, tokens, handles, n)[tokens[i]] == seq![handles[i]],
    decreases n,
{
    if i < n - 1 {
        tokens_get_their_handles(held, tokens, handles, (n - 1) as nat, i);
        assert(tokens[i] != tokens[n - 1]);
    }
}

/// A bitmap in shared memory that arrives with its handle is looked at under that handle, and the
/// handle is not kept afterwards.
pub proof fn shared_frame_reaches_inspection(
    held: Map<u64, Seq<OpaqueHandle>>,
    d: FrameView,
    fd: OpaqueHandle,
)
    requires
        d is SharedMemoryImage,
        d->SharedMemoryImage_format == PixelFormat::Rgba8888,
        d->size > 0,
    ensures
        ({
            let now = filed(held, tokens_of(d), seq![fd]);
            &&& to_inspect(now, d) == Some(
                FrameCheck {
                    width: d->SharedMemoryImage_width,
                    height: d->SharedMemoryImage_height,
                    stride: d->SharedMemoryImage_stride,
                    handle: fd,
                    size: d->size,
                },
            )
            &&& !left_after(now, d).contains_key(d->shm.0)
        }),
{
}

/// The button that a button code of the host stands for.
pub open spec fn button_of(code: u8) -> MouseButton {
    if code == 1 {
        MouseButton::Left
    } else if code == 2 {
        MouseButton::Right
    } else if code == 3 {
        MouseButton::Middle
    } else {
        MouseButton::Other(code)
    }
}

/// Maps a button code of the host.
pub fn map_mouse_button(code: u8) -> (b: MouseButton)
    ensures
        b == button_of(code),
{
    match code {
        1 => MouseButton::Left,
        2 => MouseButton::Right,
        3 => MouseButton::Middle,
        other => MouseButton::Other(other),
    }
}

/// The button state on the wire.
pub open spec fn wire_state(s: crate::controller::ButtonState) -> ButtonState {
    match s {
        crate::controller::ButtonState::Pressed => ButtonState::Pressed,
        crate::controller::ButtonState::Released => ButtonState::Released,
    }
}

/// The wire form of an input event; the host gives no time stamps.
pub open spec fn wire_event(e: InputEvent) -> InputEventView {
    match e {
        InputEvent::MouseMove { x, y } => InputEventView::MouseMove { x, y, timestamp_us: None },
        InputEvent::MouseButton { button, state } => InputEventView::MouseButton {
            button: button_of(button),
            state: wire_state(state),
            timestamp_us: None,
        },
        InputEvent::Scroll { delta_x, delta_y, is_precise } => InputEventView::Scroll {
            delta_x,
            delta_y,
            is_precise,
            timestamp_us: None,
        },
        InputEvent::KeyDown { key } => InputEventView::KeyDown { key: key@, timestamp_us: None },
        InputEvent::KeyUp { key } => InputEventView::KeyUp { key: key@, timestamp_us: None },
        InputEvent::CharInput { ch } => InputEventView::CharInput { ch, timestamp_us: None },
        InputEvent::FocusChanged { focused } => InputEventView::FocusChanged {
            focused,
            timestamp_us: None,
        },
        InputEvent::PointerEntered => InputEventView::PointerEntered { timestamp_us: None },
        InputEvent::PointerLeft => InputEventView::PointerLeft { timestamp_us: None },
    }
}

/// Puts an input event into its wire form.
pub fn map_input_event(ev: InputEvent) -> (r: IpcInputEvent)
    ensures
        r@ == wire_event(ev),
{
    match ev {
        InputEvent::MouseMove { x, y } => IpcInputEvent::MouseMove { x, y, timestamp_us: None },
        InputEvent::MouseButton { button, state } => {
            let state = match state {
                crate::controller::ButtonState::Pressed => ButtonState::Pressed,
                crate::controller::ButtonState::Released => ButtonState::Released,
            };
            IpcInputEvent::MouseButton {
                button: map_mouse_button(button),
                state,
                timestamp_us: None,
            }
        },
        InputEvent::Scroll { delta_x, delta_y, is_precise } => IpcInputEvent::Scroll {
            delta_x,
            delta_y,
            is_precise,
            timestamp_us: None,
        },
        InputEvent::KeyDown { key } => IpcInputEvent::KeyDown {
            key: key.to_owned(),
            timestamp_us: None,
        },
        InputEvent::KeyUp { key } => IpcInputEvent::KeyUp {
            key: key.to_owned(),
            timestamp_us: None,
        },
        InputEvent::CharInput { ch } => IpcInputEvent::CharInput { ch, timestamp_us: None },
        InputEvent::FocusChanged { focused } => IpcInputEvent::FocusChanged {
            focused,
            timestamp_us: None,
        },
        InputEvent::PointerEntered => IpcInputEvent::PointerEntered { timestamp_us: None },
        InputEvent::PointerLeft => IpcInputEvent::PointerLeft { timestamp_us: None },
    }
}

/// A choice that falls back to a second one.
pub open spec fn or_else<T>(first: Option<T>, second: Option<T>) -> Option<T> {
    if first is Some {
        first
    } else {
        second
    }
}

/// The configuration that goes to the server: an explicit setting comes before the global one, and
/// the socket path, if any, is passed on as the last script.
pub open spec fn wire_config(
    cfg: ConfigView,
    global_resources: Option<Seq<char>>,
    global_port: Option<u16>,
) -> ControllerConfigView {
    ControllerConfigView {
        resources_dir: or_else(cfg.resources_dir, global_resources),
        devtools_port: or_else(cfg.devtools_port, global_port),
        user_agent: cfg.user_agent,
        init_scripts: match cfg.unix_socket_path {
            Some(path) => cfg.init_scripts.push("__ipc_unix_socket_path="@ + path),
            None => cfg.init_scripts,
        },
        ipc_tuning: None,
    }
}

/// Makes the configuration that goes to the server.
pub fn to_proto_config(
    cfg: &ControllerConfig,
    global_resources: &Option<String>,
    global_port: Option<u16>,
) -> (r: crate::ipc_protocol::ControllerConfig)
    ensures
        r@ == wire_config(cfg@, opt_view(*global_resources), global_port),
{
    let resources_dir = match &cfg.resources_dir {
        Some(d) => Some(PathString(d.clone())),
        None => match global_resources {
            Some(d) => Some(PathString(d.clone())),
            None => None,
        },
    };
    let devtools_port = match cfg.devtools_port {
        Some(p) => Some(p),
        None => global_port,
    };
    let mut init_scripts = copy_all(&cfg.init_scripts);
    match &cfg.unix_socket_path {
        Some(path) => {
            let ghost before = init_scripts@;
            init_scripts.push(joined("__ipc_unix_socket_path=", path.as_str()));
            proof {
                assert(views(init_scripts@) =~= views(before).push(
                    "__ipc_unix_socket_path="@ + path@,
                ));
            }
        },
        None => {},
    }
    crate::ipc_protocol::ControllerConfig {
        resources_dir,
        devtools_port,
        user_agent: copy_opt(&cfg.user_agent),
        init_scripts,
        ipc_tuning: None,
    }
}

/// The surface that is described to the server: no native handle, no size, scale one.
pub fn to_proto_surface_descriptor(handles: &NativeSurfaceHandles) -> (d: SurfaceDescriptor)
    ensures
        d == plain_surface(),
{
    SurfaceDescriptor::Fallback { width: 0, height: 0, scale_factor: Real32 { bits: 0x3F80_0000 } }
}

/// A surface of which nothing is known, at scale one.
pub open spec fn plain_surface() -> SurfaceDescriptor {
    SurfaceDescriptor::Fallback { width: 0, height: 0, scale_factor: Real32 { bits: 0x3F80_0000 } }
}

/// The operations that wait for a reply.
#[derive(Debug, Clone, Copy, PartialEq, Eq, Structural)]
pub enum Operation {
    BindSurface,
    Load,
    EvalScript,
    Resize,
    Draw,
}

impl Operation {
    /// How a refusal of the operation is introduced.
    pub open spec fn refusal(self) -> Seq<char> {
        match self {
            Operation::BindSurface => "bind surface error: "@,
            Operation::Load => "load error: "@,
            Operation::EvalScript => "eval_script error: "@,
            Operation::Resize => "resize error: "@,
            Operation::Draw => "draw error: "@,
        }
    }

    /// How a reply that does not fit the operation is introduced.
    pub open spec fn surprise(self) -> Seq<char> {
        match self {
            Operation::BindSurface => "unexpected response to BindSurface: "@,
            Operation::Load => "unexpected response to Load: "@,
            Operation::EvalScript => "unexpected response to EvalScript: "@,
            Operation::Resize => "unexpected response to Resize: "@,
            Operation::Draw => "unexpected response to DrawNow: "@,
        }
    }

    fn refusal_text(self) -> (s: &'static str)
        ensures
            s@ == self.refusal(),
    {
        match self {
            Operation::BindSurface => "bind surface error: ",
            Operation::Load => "load error: ",
            Operation::EvalScript => "eval_script error: ",
            Operation::Resize => "resize error: ",
            Operation::Draw => "draw error: ",
        }
    }

    fn surprise_text(self) -> (s: &'static str)
        ensures
            s@ == self.surprise(),
    {
        match self {
            Operation::BindSurface => "unexpected response to BindSurface: ",
            Operation::Load => "unexpected response to Load: ",
            Operation::EvalScript => "unexpected response to EvalScript: ",
            Operation::Resize => "unexpected response to Resize: ",
            Operation::Draw => "unexpected response to DrawNow: ",
        }
    }
}

/// The name of an error code.
pub open spec fn code_name(c: ErrorCode) -> Seq<char> {
    match c {
        ErrorCode::InvalidState => "InvalidState"@,
        ErrorCode::Unsupported => "Unsupported"@,
        ErrorCode::BadMessage => "BadMessage"@,
        ErrorCode::SurfaceError => "SurfaceError"@,
        ErrorCode::Internal => "Internal"@,
    }
}

fn code_text(c: ErrorCode) -> (s: &'static str)
    ensures
        s@ == code_name(c),
{
    match c {
        ErrorCode::InvalidState => "InvalidState",
        ErrorCode::Unsupported => "Unsupported",
        ErrorCode::BadMessage => "BadMessage",
        ErrorCode::SurfaceError => "SurfaceError",
        ErrorCode::Internal => "Internal",
    }
}

/// What a reply means for an operation; `shown` is how the reply is printed.
pub open spec fn reply_error(op: Operation, resp: ResponseView, shown: Seq<char>) -> Option<
    ErrorView,
> {
    match resp {
        ResponseView::Ack { in_reply_to } => None,
        ResponseView::Error { in_reply_to, code, message } => Some(
            ErrorView::BackendMsg(op.refusal() + code_name(code) + ": "@ + message),
        ),
        _ => Some(ErrorView::BackendMsg(op.surprise() + shown)),
    }
}

/// Tells what a reply means for an operation; `shown` is how the reply is printed.
pub fn classify_reply(op: Operation, resp: &Response, shown: &str) -> (r: Result<
    (),
    ControllerError,
>)
    ensures
        failure(r) == reply_error(op, resp@, shown@),
{
    match resp {
        Response::Ack { in_reply_to: _ } => Ok(()),
        Response::Error { in_reply_to: _, code, message } => {
            let mut s = joined(op.refusal_text(), code_text(*code));
            s.append(": ");
            s.append(message.as_str());
            Err(ControllerError::BackendMsg(s))
        },
        _ => Err(ControllerError::BackendMsg(joined(op.surprise_text(), shown))),
    }
}

/// How waiting for a reply ended.
pub enum Waited {
    Replied(Response),
    /// The message could not be encoded.
    NotEncoded(String),
    /// There is no connection.
    NotConnected,
    /// Nothing can be run.
    NoRuntime,
    /// The connection did not take the message.
    NotSent,
    /// The connection ended before a reply came.
    Canceled,
    /// No reply came in time.
    TimedOut,
}

/// The error of a wait that brought no reply.
pub open spec fn wait_error(w: Waited) -> Option<ErrorView> {
    match w {
        Waited::Replied(_) => None,
        Waited::NotEncoded(e) => Some(ErrorView::BackendMsg("serialize: "@ + e@)),
        Waited::NotConnected => Some(ErrorView::InvalidState("transport not ready"@)),
        Waited::NoRuntime => Some(ErrorView::InvalidState("tokio runtime not initialized"@)),
        Waited::NotSent => Some(ErrorView::Backend("send failed"@)),
        Waited::Canceled => Some(ErrorView::Backend("response channel canceled"@)),
        Waited::TimedOut => Some(ErrorView::Backend("request timed out"@)),
    }
}

/// The reply that was waited for, or why there is none.
pub fn settle(w: Waited) -> (r: Result<Response, ControllerError>)
    ensures
        failure(r) == wait_error(w),
        w is Replied ==> r == Ok::<Response, ControllerError>(w->Replied_0),
{
    match w {
        Waited::Replied(resp) => Ok(resp),
        Waited::NotEncoded(e) => Err(ControllerError::BackendMsg(joined("serialize: ", e.as_str()))),
        Waited::NotConnected => Err(ControllerError::InvalidState("transport not ready")),
        Waited::NoRuntime => Err(ControllerError::InvalidState("tokio runtime not initialized")),
        Waited::NotSent => Err(ControllerError::Backend("send failed")),
        Waited::Canceled => Err(ControllerError::Backend("response channel canceled")),
        Waited::TimedOut => Err(ControllerError::Backend("request timed out")),
    }
}

/// The controller of a render server process.
pub struct IpcController {
    pub initialized: bool,
    pub connected: bool,
    pub alive: bool,
    pub config: Option<ControllerConfig>,
    pub last_url: Option<String>,
    pub last_script: Option<String>,
    pub last_size: Option<PhysicalSize>,
    pub input_events: usize,
    pub draws_requested: usize,
    pub draws_performed: usize,
    pub visible: bool,
    pub negotiated_caps: Option<Capabilities>,
    pub next_id: u64,
}

/// View of an [`IpcController`].
pub struct IpcState {
    pub initialized: bool,
    pub connected: bool,
    pub alive: bool,
    pub config: Option<ConfigView>,
    pub last_url: Option<Seq<char>>,
    pub last_script: Option<Seq<char>>,
    pub last_size: Option<PhysicalSize>,
    pub input_events: usize,
    pub draws_requested: usize,
    pub draws_performed: usize,
    pub visible: bool,
    pub negotiated_caps: Option<CapabilitiesView>,
    pub next_id: u64,
}

/// The view of optional capabilities.
pub open spec fn opt_capabilities(c: Option<Capabilities>) -> Option<CapabilitiesView> {
    match c {
        Some(c) => Some(c@),
        None => None,
    }
}

impl View for IpcController {
    type V = IpcState;

    open spec fn view(&self) -> IpcState {
        IpcState {
            initialized: self.initialized,
            connected: self.connected,
            alive: self.alive,
            config: opt_config(self.config),
            last_url: opt_view(self.last_url),
            last_script: opt_view(self.last_script),
            last_size: self.last_size,
            input_events: self.input_events,
            draws_requested: self.draws_requested,
            draws_performed: self.draws_performed,
            visible: self.visible,
            negotiated_caps: opt_capabilities(self.negotiated_caps),
            next_id: self.next_id,
        }
    }
}

/// The id after `id`; ids wrap around.
pub open spec fn id_after(id: u64) -> u64 {
    if id < u64::MAX {
        (id + 1) as u64
    } else {
        0
    }
}

impl IpcState {
    /// The state of a new controller.
    pub open spec fn fresh() -> IpcState {
        IpcState {
            initialized: false,
            connected: false,
            alive: false,
            config: None,
            last_url: None,
            last_script: None,
            last_size: None,
            input_events: 0,
            draws_requested: 0,
            draws_performed: 0,
            visible: true,
            negotiated_caps: None,
            next_id: 1,
        }
    }

    /// The error of an operation on the page in this state.
    pub open spec fn not_ready(self) -> Option<ErrorView> {
        not_ready(self.initialized, self.connected, self.alive)
    }

    /// The state once an id was taken.
    pub open spec fn numbered(self) -> IpcState {
        IpcState { next_id: id_after(self.next_id), ..self }
    }

    /// The request that goes out in this state.
    pub open spec fn outgoing(self, req: RequestView) -> EnvelopeView {
        EnvelopeView {
            version: PROTOCOL_VERSION,
            id: self.next_id,
            flags: 0,
            message: MessageView::Request(req),
        }
    }
}

/// An operation on the page is refused without effect where the controller is not ready; otherwise
/// the request goes out under the next id, and `changed` is what else the state becomes.
pub open spec fn asks(
    pre: IpcState,
    changed: IpcState,
    req: RequestView,
    post: IpcState,
    r: Result<Envelope, ControllerError>,
) -> bool {
    if pre.not_ready() is Some {
        failure(r) == pre.not_ready() && post == pre
    } else {
        r is Ok && r->Ok_0@ == pre.outgoing(req) && post == changed.numbered()
    }
}

impl IpcController {
    /// A controller without a server.
    pub fn new() -> (c: Self)
        ensures
            c@ == IpcState::fresh(),
    {
        IpcController {
            initialized: false,
            connected: false,
            alive: false,
            config: None,
            last_url: None,
            last_script: None,
            last_size: None,
            input_events: 0,
            draws_requested: 0,
            draws_performed: 0,
            visible: true,
            negotiated_caps: None,
            next_id: 1,
        }
    }

    fn ready(&self) -> (r: Result<(), ControllerError>)
        ensures
            failure(r) == self@.not_ready(),
    {
        ensure_ready(self.initialized, self.connected, self.alive)
    }

    /// Takes the next message id.
    pub fn next_msg_id(&mut self) -> (id: u64)
        ensures
            id == old(self)@.next_id,
            final(self)@ == old(self)@.numbered(),
    {
        let id: u64 = self.next_id;
        self.next_id = id.wrapping_add(1);
        id
    }

    fn envelope(&mut self, req: Request) -> (env: Envelope)
        ensures
            env@ == old(self)@.outgoing(req@),
            final(self)@ == old(self)@.numbered(),
    {
        Envelope {
            version: PROTOCOL_VERSION,
            id: self.next_msg_id(),
            flags: 0,
            message: Message::Request(req),
        }
    }

    /// Sets the controller up.
    pub fn initialize(&mut self, config: ControllerConfig) -> (r: Result<(), ControllerError>)
        ensures
            if old(self)@.initialized {
                failure(r) == Some(ErrorView::InvalidState("initialize() called more than once"@))
                    && final(self)@ == old(self)@
            } else {
                r is Ok && final(self)@ == (IpcState {
                    config: Some(config@),
                    initialized: true,
                    alive: false,
                    ..old(self)@
                })
            },
    {
        if self.initialized {
            return Err(ControllerError::InvalidState("initialize() called more than once"));
        }
        self.config = Some(config);
        self.initialized = true;
        self.alive = false;
        Ok(())
    }

    /// Begins binding: says which server binary is to be started.  An explicit path comes before
    /// the global one.
    pub fn begin_bind(&self, global_path: &str) -> (r: Result<String, ControllerError>)
        ensures
            if !self@.initialized {
                failure(r) == not_initialized(false)
            } else if self@.connected {
                failure(r) == Some(
                    ErrorView::InvalidState("bind_surface() called more than once"@),
                )
            } else {
                r is Ok && r->Ok_0@ == (match self@.config {
                    Some(c) => match c.external_bin_path {
                        Some(p) => p,
                        None => global_path@,
                    },
                    None => global_path@,
                })
            },
    {
        ensure_initialized(self.initialized)?;
        if self.connected {
            return Err(ControllerError::InvalidState("bind_surface() called more than once"));
        }
        match &self.config {
            Some(c) => match &c.external_bin_path {
                Some(p) => Ok(p.clone()),
                None => Ok(global_path.to_owned()),
            },
            None => Ok(global_path.to_owned()),
        }
    }

    /// The connection to the server stands.
    fn connection_up(&mut self)
        ensures
            final(self)@ == (IpcState { alive: true, ..old(self)@ }),
    {
        self.alive = true;
    }

    /// The connection to the server failed.
    pub fn connection_lost(&mut self)
        ensures
            final(self)@ == (IpcState { alive: false, ..old(self)@ }),
    {
        self.alive = false;
    }

    /// Begins the handshake.
    fn begin_handshake(&mut self, global_resources: &Option<String>, global_port: Option<u16>)
     -> (r: Result<Envelope, ControllerError>)
        ensures
            match old(self)@.config {
                None => failure(r) == Some(ErrorView::InvalidState("missing config"@)) && final(
                    self)@ == old(self)@,
                Some(c) => r is Ok && r->Ok_0@ == old(self)@.outgoing(
                    greeting(c, opt_view(*global_resources), global_port),
                ) && final(self)@ == old(self)@.numbered(),
            },
    {
        let config = match &self.config {
            None => return Err(ControllerError::InvalidState("missing config")),
            Some(c) => to_proto_config(c, global_resources, global_port),
        };
        Ok(
            self.envelope(
                Request::Init {
                    client_name: "verso-standalone".to_owned(),
                    supported: VersionRange::default(),
                    config,
                },
            ),
        )
    }

    /// Ends the handshake with the reply to it; `shown` is how the reply is printed.
    fn finish_handshake(&mut self, resp: Response, shown: &str) -> (r: Result<
        (),
        ControllerError,
    >)
        ensures
            match resp@ {
                ResponseView::InitAck { in_reply_to, chosen_version, server_name, capabilities } => {
                    r is Ok && final(self)@ == (IpcState {
                        negotiated_caps: Some(capabilities),
                        ..old(self)@
                    })
                },
                _ => failure(r) == Some(
                    ErrorView::BackendMsg("unexpected response to Init: "@ + shown@),
                ) && final(self)@ == old(self)@,
            },
    {
        match resp {
            Response::InitAck { in_reply_to: _, chosen_version: _, server_name: _, capabilities }
            => {
                self.negotiated_caps = Some(capabilities);
                Ok(())
            },
            _ => Err(
                ControllerError::BackendMsg(joined("unexpected response to Init: ", shown)),
            ),
        }
    }

    /// Asks the server to bind the surface.
    fn begin_bind_surface(&mut self, handles: &NativeSurfaceHandles) -> (env: Envelope)
        ensures
            env@ == old(self)@.outgoing(RequestView::BindSurface { surface: plain_surface() }),
            final(self)@ == old(self)@.numbered(),
    {
        let surface = to_proto_surface_descriptor(handles);
        self.envelope(Request::BindSurface { surface })
    }

    /// Ends binding with the reply of the server; `shown` is how the reply is printed.
    fn finish_bind_surface(&mut self, resp: &Response, shown: &str) -> (r: Result<
        (),
        ControllerError,
    >)
        ensures
            failure(r) == reply_error(Operation::BindSurface, resp@, shown@),
            final(self)@ == (if r is Ok {
                IpcState { connected: true, ..old(self)@ }
            } else {
                old(self)@
            }),
    {
        classify_reply(Operation::BindSurface, resp, shown)?;
        self.connected = true;
        Ok(())
    }

    /// Asks for a navigation.
    pub fn load(&mut self, url_or_resource: &str) -> (r: Result<Envelope, ControllerError>)
        ensures
            asks(
                old(self)@,
                IpcState { last_url: Some(url_or_resource@), ..old(self)@ },
                RequestView::Load { url: url_or_resource@ },
                final(self)@,
                r,
            ),
    {
        self.ready()?;
        self.last_url = Some(url_or_resource.to_owned());
        Ok(self.envelope(Request::Load { url: url_or_resource.to_owned() }))
    }

    /// Asks for a script to be evaluated.
    pub fn eval_script(&mut self, source: &str) -> (r: Result<Envelope, ControllerError>)
        ensures
            asks(
                old(self)@,
                IpcState { last_script: Some(source@), ..old(self)@ },
                RequestView::EvalScript { source: source@, request_id: None },
                final(self)@,
                r,
            ),
    {
        self.ready()?;
        self.last_script = Some(source.to_owned());
        Ok(self.envelope(Request::EvalScript { source: source.to_owned(), request_id: None }))
    }

    /// Reports a new size.
    pub fn resize(&mut self, size: PhysicalSize) -> (r: Result<Envelope, ControllerError>)
        ensures
            asks(
                old(self)@,
                IpcState { last_size: Some(size), ..old(self)@ },
                RequestView::Resize { width: size.width, height: size.height },
                final(self)@,
                r,
            ),
    {
        self.ready()?;
        self.last_size = Some(size);
        Ok(self.envelope(Request::Resize { width: size.width, height: size.height }))
    }

    /// Asks for a draw on the next frame; no reply is waited for.
    pub fn request_draw(&mut self) -> (r: Result<Envelope, ControllerError>)
        ensures
            asks(
                old(self)@,
                IpcState { draws_requested: counted(old(self)@.draws_requested), ..old(self)@ },
                RequestView::RequestDraw,
                final(self)@,
                r,
            ),
    {
        self.ready()?;
        self.draws_requested = self.draws_requested.wrapping_add(1);
        Ok(self.envelope(Request::RequestDraw))
    }

    /// Asks for an immediate draw.
    pub fn draw(&mut self) -> (r: Result<Envelope, ControllerError>)
        ensures
            asks(
                old(self)@,
                IpcState { draws_performed: counted(old(self)@.draws_performed), ..old(self)@ },
                RequestView::DrawNow,
                final(self)@,
                r,
            ),
    {
        self.ready()?;
        self.draws_performed = self.draws_performed.wrapping_add(1);
        Ok(self.envelope(Request::DrawNow))
    }

    /// Forwards an input event as a batch of one; no reply is waited for.
    pub fn send_input(&mut self, event: InputEvent) -> (r: Result<Envelope, ControllerError>)
        ensures
            asks(
                old(self)@,
                IpcState { input_events: counted(old(self)@.input_events), ..old(self)@ },
                RequestView::InputEvent { events: seq![wire_event(event)] },
                final(self)@,
                r,
            ),
    {
        self.ready()?;
        self.input_events = self.input_events.wrapping_add(1);
        let mut events: Vec<IpcInputEvent> = Vec::new();
        events.push(map_input_event(event));
        proof {
            assert(crate::ipc_protocol::event_views(events@) =~= seq![wire_event(event)]);
        }
        Ok(self.envelope(Request::InputEvent { events }))
    }

    /// Shows or hides the web view; the server is not told.
    pub fn set_visibility(&mut self, visible: bool) -> (r: Result<(), ControllerError>)
        ensures
            failure(r) == old(self)@.not_ready(),
            final(self)@ == (if r is Ok {
                IpcState { visible, ..old(self)@ }
            } else {
                old(self)@
            }),
    {
        self.ready()?;
        self.visible = visible;
        Ok(())
    }

    /// Asks for input focus; the server is not told.
    pub fn focus(&mut self) -> (r: Result<(), ControllerError>)
        ensures
            failure(r) == old(self)@.not_ready(),
            final(self)@ == old(self)@,
    {
        self.ready()
    }

    /// What the handshake settled, once it took place.
    pub fn capabilities(&self) -> (c: Option<ControllerCapabilities>)
        ensures
            c == (match self@.negotiated_caps {
                Some(caps) => Some(
                    ControllerCapabilities {
                        fd_passing: caps.fd_passing,
                        zero_copy_frames: caps.zero_copy_frames,
                        compressed_frames: caps.compressed_frames,
                    },
                ),
                None => None,
            }),
    {
        match &self.negotiated_caps {
            Some(caps) => Some(
                ControllerCapabilities {
                    fd_passing: caps.fd_passing,
                    zero_copy_frames: caps.zero_copy_frames,
                    compressed_frames: caps.compressed_frames,
                },
            ),
            None => None,
        }
    }

    /// Whether the connection stands.
    pub fn is_alive(&self) -> (b: bool)
        ensures
            b == self@.alive,
    {
        self.alive
    }

    /// Begins shutting down: the message that asks the server to end, where one can be sent.
    pub fn begin_shutdown(&mut self) -> (r: Result<Option<Envelope>, ControllerError>)
        ensures
            if !old(self)@.initialized {
                failure(r) == not_initialized(false) && final(self)@ == old(self)@
            } else if old(self)@.connected && old(self)@.alive {
                r is Ok && r->Ok_0 is Some && r->Ok_0->0@ == old(self)@.outgoing(
                    RequestView::Shutdown,
                ) && final(self)@ == old(self)@.numbered()
            } else {
                r is Ok && r->Ok_0 is None && final(self)@ == old(self)@
            },
    {
        ensure_initialized(self.initialized)?;
        if self.connected && self.alive {
            Ok(Some(self.envelope(Request::Shutdown)))
        } else {
            Ok(None)
        }
    }

    /// Ends shutting down, once the connection is closed and the server is gone.
    pub fn finish_shutdown(&mut self)
        ensures
            final(self)@ == (IpcState { alive: false, connected: false, ..old(self)@ }),
    {
        self.alive = false;
        self.connected = false;
    }
}

/// The outcome of an operation that waits for a reply: why none came, or what it means.
pub open spec fn operation_error(op: Operation, w: Waited, shown: Seq<char>) -> Option<ErrorView> {
    match w {
        Waited::Replied(resp) => reply_error(op, resp@, shown),
        _ => wait_error(w),
    }
}

/// Ends an operation that waits for a reply; `shown` is how the reply is printed.
pub fn finish_operation(op: Operation, w: Waited, shown: &str) -> (r: Result<(), ControllerError>)
    ensures
        failure(r) == operation_error(op, w, shown@),
{
    match settle(w) {
        Ok(resp) => classify_reply(op, &resp, shown),
        Err(e) => Err(e),
    }
}

/// How handing over a message that no reply is waited for ended.
pub enum Posted {
    Sent,
    /// The message could not be encoded.
    NotEncoded(String),
    /// There is no connection.
    NotConnected,
    /// Nothing can be run.
    NoRuntime,
    /// The connection did not take the message.
    NotSent,
}

/// Ends an operation that waits for no reply.
pub fn finish_post(p: Posted) -> (r: Result<(), ControllerError>)
    ensures
        failure(r) == (match p {
            Posted::Sent => None,
            Posted::NotEncoded(e) => Some(ErrorView::BackendMsg("serialize: "@ + e@)),
            Posted::NotConnected => Some(ErrorView::InvalidState("transport not ready"@)),
            Posted::NoRuntime => Some(ErrorView::InvalidState("tokio runtime not initialized"@)),
            Posted::NotSent => Some(ErrorView::Backend("send failed"@)),
        }),
{
    match p {
        Posted::Sent => Ok(()),
        Posted::NotEncoded(e) => Err(ControllerError::BackendMsg(joined("serialize: ", e.as_str()))),
        Posted::NotConnected => Err(ControllerError::InvalidState("transport not ready")),
        Posted::NoRuntime => Err(ControllerError::InvalidState("tokio runtime not initialized")),
        Posted::NotSent => Err(ControllerError::Backend("send failed")),
    }
}

/// The error of a handshake that ended with `w`.
pub open spec fn handshake_error(w: Waited, shown: Seq<char>) -> Option<ErrorView> {
    match w {
        Waited::Replied(resp) => if resp@ is InitAck {
            None
        } else {
            Some(ErrorView::BackendMsg("unexpected response to Init: "@ + shown))
        },
        _ => wait_error(w),
    }
}

impl IpcController {
    /// Goes on with binding once starting the server has ended: a server that stands is greeted.
    pub fn server_started(
        &mut self,
        started: Result<(), ControllerError>,
        global_resources: &Option<String>,
        global_port: Option<u16>,
    ) -> (r: Result<Envelope, ControllerError>)
        ensures
            match started {
                Err(e) => failure(r) == Some(e@) && final(self)@ == old(self)@,
                Ok(_) => match old(self)@.config {
                    None => failure(r) == Some(ErrorView::InvalidState("missing config"@)) && final(
                        self)@ == (IpcState { alive: true, ..old(self)@ }),
                    Some(c) => r is Ok && r->Ok_0@ == old(self)@.outgoing(
                        greeting(c, opt_view(*global_resources), global_port),
                    ) && final(self)@ == (IpcState { alive: true, ..old(self)@.numbered() }),
                },
            },
    {
        match started {
            Err(e) => Err(e),
            Ok(()) => {
                self.connection_up();
                self.begin_handshake(global_resources, global_port)
            },
        }
    }

    /// Goes on with binding once the handshake has ended: the surface is described to a server
    /// that took the handshake.
    pub fn handshake_answered(&mut self, w: Waited, shown: &str, handles: &NativeSurfaceHandles)
     -> (r: Result<Envelope, ControllerError>)
        ensures
            if handshake_error(w, shown@) is Some {
                failure(r) == handshake_error(w, shown@) && final(self)@ == old(self)@
            } else {
                r is Ok && r->Ok_0@ == old(self)@.outgoing(
                    RequestView::BindSurface { surface: plain_surface() },
                ) && final(self)@ == (IpcState {
                    negotiated_caps: Some(w->Replied_0@->capabilities),
                    ..old(self)@.numbered()
                })
            },
    {
        match settle(w) {
            Err(e) => Err(e),
            Ok(resp) => match self.finish_handshake(resp, shown) {
                Err(e) => Err(e),
                Ok(()) => Ok(self.begin_bind_surface(handles)),
            },
        }
    }

    /// Ends binding: the controller is connected exactly if the server acknowledged the surface.
    pub fn surface_answered(&mut self, w: Waited, shown: &str) -> (r: Result<(), ControllerError>)
        ensures
            failure(r) == operation_error(Operation::BindSurface, w, shown@),
            final(self)@ == (if r is Ok {
                IpcState { connected: true, ..old(self)@ }
            } else {
                old(self)@
            }),
    {
        match settle(w) {
            Err(e) => Err(e),
            Ok(resp) => self.finish_bind_surface(&resp, shown),
        }
    }
}

/// The request that opens a session.
pub open spec fn greeting(
    cfg: ConfigView,
    global_resources: Option<Seq<char>>,
    global_port: Option<u16>,
) -> RequestView {
    RequestView::Init {
        client_name: "verso-standalone"@,
        supported: VersionRange { min: PROTOCOL_MIN_VERSION, max: PROTOCOL_MAX_VERSION },
        config: wire_config(cfg, global_resources, global_port),
    }
}

/// An operation that goes out leaves the controller ready and takes a fresh id, so that two
/// operations in a row never share one.
pub proof fn operations_have_distinct_ids(
    pre: IpcState,
    changed: IpcState,
    req: RequestView,
    post: IpcState,
    r: Result<Envelope, ControllerError>,
    changed2: IpcState,
    req2: RequestView,
    post2: IpcState,
    r2: Result<Envelope, ControllerError>,
)
    requires
        changed.next_id == pre.next_id,
        asks(pre, changed, req, post, r),
        asks(post, changed2, req2, post2, r2),
        r is Ok,
        r2 is Ok,
    ensures
        r->Ok_0@.id != r2->Ok_0@.id,
{
}

/// After shutting down every operation on the page is refused without effect.
pub proof fn shut_down_controller_refuses(
    pre: IpcState,
    changed: IpcState,
    req: RequestView,
    post: IpcState,
    r: Result<Envelope, ControllerError>,
)
    requires
        pre.initialized,
        !pre.connected,
        asks(pre, changed, req, post, r),
    ensures
        failure(r) == Some(ErrorView::SurfaceNotBound),
        post == pre,
{
}

/// What the server is asked is what it answers: the request of an operation is accepted exactly
/// when the reply is an acknowledgement.
pub proof fn only_acknowledgement_succeeds(op: Operation, resp: ResponseView, shown: Seq<char>)
    ensures
        reply_error(op, resp, shown) is None <==> resp is Ack,
{
}

} // verus!
