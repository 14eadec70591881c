//! The interface between the render server and a rendering engine, and a demonstration engine.
//!
//! An engine is described by the relation [`Engine::step`]: which states and replies a call may
//! lead to.  The demonstration engine is deterministic and draws a gradient whose every byte is
//! fixed by [`gradient`].
use vstd::prelude::*;
use crate::ipc_protocol::{
    event_views, CompressedFormat, InputEventView, IpcInputEvent, PixelFormat, SurfaceDescriptor,
};
use crate::ipc_transport::OpaqueHandle;
use crate::text::{opt_view, views};

verus! {

/// How an engine is set up.
#[derive(Debug, Clone)]
pub struct EngineInit {
    pub resources_dir: Option<String>,
    /// 0 asks for any free port.
    pub devtools_port: Option<u16>,
    pub user_agent: Option<String>,
    pub init_scripts: Vec<String>,
    /// Whether frames should be shared without copying where possible.
    pub prefer_zero_copy: bool,
}

impl Default for EngineInit {
    /// Nothing configured.
    fn default() -> (r: Self)
        ensures
            r@ == (EngineInitView {
                resources_dir: None,
                devtools_port: None,
                user_agent: None,
                init_scripts: Seq::empty(),
                prefer_zero_copy: false,
            }),
    {
        let r = EngineInit {
            resources_dir: None,
            devtools_port: None,
            user_agent: None,
            init_scripts: Vec::new(),
            prefer_zero_copy: false,
        };
        proof {
            assert(r@.init_scripts =~= Seq::empty());
        }
        r
    }
}

/// View of an [`EngineInit`].
pub struct EngineInitView {
    pub resources_dir: Option<Seq<char>>,
    pub devtools_port: Option<u16>,
    pub user_agent: Option<Seq<char>>,
    pub init_scripts: Seq<Seq<char>>,
    pub prefer_zero_copy: bool,
}

impl View for EngineInit {
    type V = EngineInitView;

    open spec fn view(&self) -> EngineInitView {
        EngineInitView {
            resources_dir: opt_view(self.resources_dir),
            devtools_port: self.devtools_port,
            user_agent: opt_view(self.user_agent),
            init_scripts: views(self.init_scripts@),
            prefer_zero_copy: self.prefer_zero_copy,
        }
    }
}

/// What an engine can do.
#[derive(Debug, Clone)]
pub struct EngineCapabilities {
    pub fd_passing: bool,
    pub zero_copy_frames: bool,
    pub compressed_frames: bool,
    pub supported_compressed: Vec<CompressedFormat>,
}

impl Default for EngineCapabilities {
    /// No capability.
    fn default() -> (r: Self)
        ensures
            r@ == no_capabilities(),
    {
        let r = EngineCapabilities {
            fd_passing: false,
            zero_copy_frames: false,
            compressed_frames: false,
            supported_compressed: Vec::new(),
        };
        proof {
            assert(r@.supported_compressed =~= Seq::empty());
        }
        r
    }
}

/// View of [`EngineCapabilities`].
pub struct EngineCapabilitiesView {
    pub fd_passing: bool,
    pub zero_copy_frames: bool,
    pub compressed_frames: bool,
    pub supported_compressed: Seq<CompressedFormat>,
}

impl View for EngineCapabilities {
    type V = EngineCapabilitiesView;

    open spec fn view(&self) -> EngineCapabilitiesView {
        EngineCapabilitiesView {
            fd_passing: self.fd_passing,
            zero_copy_frames: self.zero_copy_frames,
            compressed_frames: self.compressed_frames,
            supported_compressed: self.supported_compressed@,
        }
    }
}

/// The capabilities of an engine that has none.
pub open spec fn no_capabilities() -> EngineCapabilitiesView {
    EngineCapabilitiesView {
        fd_passing: false,
        zero_copy_frames: false,
        compressed_frames: false,
        supported_compressed: Seq::empty(),
    }
}

/// A failed engine operation.
#[derive(Debug, Clone, PartialEq, Eq)]
pub struct EngineError {
    pub msg: String,
}

impl EngineError {
    /// An error with the given message.
    pub fn new(msg: &str) -> (e: Self)
        ensures
            e.msg@ == msg@,
    {
        EngineError { msg: msg.to_owned() }
    }

    /// The message text.
    pub fn to_text(&self) -> (s: String)
        ensures
            s@ == self.msg@,
    {
        self.msg.clone()
    }
}

/// One plane of a dmabuf frame with its native handle.
#[derive(Debug, Clone, Copy, PartialEq, Eq, Structural)]
pub struct DmabufPlaneHandle {
    pub fd: OpaqueHandle,
    pub offset: u32,
    pub stride: u32,
    pub plane_index: u8,
}

/// A frame that an engine produced.
#[allow(inconsistent_fields)]
#[derive(Debug, Clone)]
pub enum EngineFrame {
    /// An uncompressed bitmap, by value.
    SharedMemoryInline {
        width: u32,
        height: u32,
        stride: u32,
        format: PixelFormat,
        bytes: Vec<u8>,
    },
    /// An uncompressed bitmap that is to be placed in a shared memory segment.
    SharedMemoryExport {
        width: u32,
        height: u32,
        stride: u32,
        format: PixelFormat,
        bytes: Vec<u8>,
    },
    /// An uncompressed bitmap in a shared memory segment of `size` bytes.
    SharedMemoryHandle {
        width: u32,
        height: u32,
        stride: u32,
        format: PixelFormat,
        fd: OpaqueHandle,
        size: u64,
    },
    LinuxDmabuf {
        width: u32,
        height: u32,
        fourcc: u32,
        modifier: u64,
        planes: Vec<DmabufPlaneHandle>,
        fence: Option<OpaqueHandle>,
    },
    MacOsIoSurface { width: u32, height: u32, pixel_format: u32, io_surface_id: u32 },
    WindowsDxgiSharedHandle { width: u32, height: u32, dxgi_format: u32, handle_value: u64 },
    /// A compressed bitmap.
    CompressedImage { width: u32, height: u32, format: CompressedFormat, data: Vec<u8> },
}

/// View of an [`EngineFrame`].
#[allow(inconsistent_fields)]
pub enum EngineFrameView {
    SharedMemoryInline {
        width: u32,
        height: u32,
        stride: u32,
        format: PixelFormat,
        bytes: Seq<u8>,
    },
    SharedMemoryExport {
        width: u32,
        height: u32,
        stride: u32,
        format: PixelFormat,
        bytes: Seq<u8>,
    },
    SharedMemoryHandle {
        width: u32,
        height: u32,
        stride: u32,
        format: PixelFormat,
        fd: OpaqueHandle,
        size: u64,
    },
    LinuxDmabuf {
        width: u32,
        height: u32,
        fourcc: u32,
        modifier: u64,
        planes: Seq<DmabufPlaneHandle>,
        fence: Option<OpaqueHandle>,
    },
    MacOsIoSurface { width: u32, height: u32, pixel_format: u32, io_surface_id: u32 },
    WindowsDxgiSharedHandle { width: u32, height: u32, dxgi_format: u32, handle_value: u64 },
    CompressedImage { width: u32, height: u32, format: CompressedFormat, data: Seq<u8> },
}

impl View for EngineFrame {
    type V = EngineFrameView;

    open spec fn view(&self) -> EngineFrameView {
        match *self {
            EngineFrame::SharedMemoryInline { width, height, stride, format, bytes } => {
                EngineFrameView::SharedMemoryInline { width, height, stride, format, bytes: bytes@ }
            },
            EngineFrame::SharedMemoryExport { width, height, stride, format, bytes } => {
                EngineFrameView::SharedMemoryExport { width, height, stride, format, bytes: bytes@ }
            },
            EngineFrame::SharedMemoryHandle { width, height, stride, format, fd, size } => {
                EngineFrameView::SharedMemoryHandle { width, height, stride, format, fd, size }
            },
            EngineFrame::LinuxDmabuf { width, height, fourcc, modifier, planes, fence } => {
                EngineFrameView::LinuxDmabuf {
                    width,
                    height,
                    fourcc,
                    modifier,
                    planes: planes@,
                    fence,
                }
            },
            EngineFrame::MacOsIoSurface { width, height, pixel_format, io_surface_id } => {
                EngineFrameView::MacOsIoSurface { width, height, pixel_format, io_surface_id }
            },
            EngineFrame::WindowsDxgiSharedHandle { width, height, dxgi_format, handle_value } => {
                EngineFrameView::WindowsDxgiSharedHandle {
                    width,
                    height,
                    dxgi_format,
                    handle_value,
                }
            },
            EngineFrame::CompressedImage { width, height, format, data } => {
                EngineFrameView::CompressedImage { width, height, format, data: data@ }
            },
        }
    }
}

/// A call of an engine, by the values that it is given.
pub enum EngineCall {
    Init(EngineInitView),
    BindSurface(SurfaceDescriptor),
    Load(Seq<char>),
    EvalScript(Seq<char>),
    Resize(u32, u32),
    InputEvents(Seq<InputEventView>),
    RequestDraw,
    DrawNow,
    OpenDevtools(Option<u16>),
    Shutdown,
}

/// What a call of an engine came back with.
pub enum EngineReply {
    Done,
    Capabilities(EngineCapabilitiesView),
    Frame(Option<EngineFrameView>),
    Port(Option<u16>),
    Failed(Seq<char>),
}

/// The reply of a call that returns nothing.
pub open spec fn done_reply(r: Result<(), EngineError>) -> EngineReply {
    match r {
        Ok(_) => EngineReply::Done,
        Err(e) => EngineReply::Failed(e.msg@),
    }
}

/// The reply of a call that returns capabilities.
pub open spec fn capabilities_reply(r: Result<EngineCapabilities, EngineError>) -> EngineReply {
    match r {
        Ok(c) => EngineReply::Capabilities(c@),
        Err(e) => EngineReply::Failed(e.msg@),
    }
}

/// The reply of a call that may return a frame.
pub open spec fn frame_reply(r: Result<Option<EngineFrame>, EngineError>) -> EngineReply {
    match r {
        Ok(Some(f)) => EngineReply::Frame(Some(f@)),
        Ok(None) => EngineReply::Frame(None),
        Err(e) => EngineReply::Failed(e.msg@),
    }
}

/// The reply of a call that may return a port.
pub open spec fn port_reply(r: Result<Option<u16>, EngineError>) -> EngineReply {
    match r {
        Ok(p) => EngineReply::Port(p),
        Err(e) => EngineReply::Failed(e.msg@),
    }
}

/// What the render server asks of an engine.
pub trait Engine: Sized {
    /// Whether `call`, made in state `pre`, may end in state `post` with `reply`.
    spec fn step(pre: Self, call: EngineCall, post: Self, reply: EngineReply) -> bool;

    /// The invariant of an engine.
    spec fn wf(&self) -> bool;

    /// Whether a frame of the current size can be drawn.
    spec fn can_draw(&self) -> bool;

    /// Tells whether a frame of the current size can be drawn.
    fn drawable(&self) -> (b: bool)
        ensures
            b == self.can_draw(),
    ;

    /// Sets the engine up; returns what it can do.
    fn init(&mut self, init: EngineInit) -> (r: Result<EngineCapabilities, EngineError>)
        requires
            old(self).wf(),
        ensures
            final(self).wf(),
            Self::step(*old(self), EngineCall::Init(init@), *final(self), capabilities_reply(r)),
    ;

    /// Binds a surface.
    fn bind_surface(&mut self, surface: &SurfaceDescriptor) -> (r: Result<(), EngineError>)
        requires
            old(self).wf(),
        ensures
            final(self).wf(),
            Self::step(
                *old(self),
                EngineCall::BindSurface(*surface),
                *final(self),
                done_reply(r),
            ),
    ;

    /// Navigates to a URL or loads given data.
    fn load(&mut self, url_or_data: &str) -> (r: Result<(), EngineError>)
        requires
            old(self).wf(),
        ensures
            final(self).wf(),
            Self::step(*old(self), EngineCall::Load(url_or_data@), *final(self), done_reply(r)),
    ;

    /// Evaluates a script in the page.
    fn eval_script(&mut self, source: &str) -> (r: Result<(), EngineError>)
        requires
            old(self).wf(),
        ensures
            final(self).wf(),
            Self::step(*old(self), EngineCall::EvalScript(source@), *final(self), done_reply(r)),
    ;

    /// Sets the size in physical pixels.
    fn resize(&mut self, width: u32, height: u32) -> (r: Result<(), EngineError>)
        requires
            old(self).wf(),
        ensures
            final(self).wf(),
            Self::step(*old(self), EngineCall::Resize(width, height), *final(self), done_reply(r)),
    ;

    /// Takes a batch of input events.
    fn input_events(&mut self, events: &Vec<IpcInputEvent>) -> (r: Result<(), EngineError>)
        requires
            old(self).wf(),
        ensures
            final(self).wf(),
            Self::step(
                *old(self),
                EngineCall::InputEvents(event_views(events@)),
                *final(self),
                done_reply(r),
            ),
    ;

    /// Asks for a frame; one may come at once.
    fn request_draw(&mut self) -> (r: Result<Option<EngineFrame>, EngineError>)
        requires
            old(self).wf(),
            old(self).can_draw(),
        ensures
            final(self).wf(),
            Self::step(*old(self), EngineCall::RequestDraw, *final(self), frame_reply(r)),
    ;

    /// Draws at once.
    fn draw_now(&mut self) -> (r: Result<Option<EngineFrame>, EngineError>)
        requires
            old(self).wf(),
            old(self).can_draw(),
        ensures
            final(self).wf(),
            Self::step(*old(self), EngineCall::DrawNow, *final(self), frame_reply(r)),
    ;

    /// Opens the developer tools; returns the port that they listen on.
    fn open_devtools(&mut self, requested: Option<u16>) -> (r: Result<Option<u16>, EngineError>)
        requires
            old(self).wf(),
        ensures
            final(self).wf(),
            Self::step(
                *old(self),
                EngineCall::OpenDevtools(requested),
                *final(self),
                port_reply(r),
            ),
    ;

    /// Releases the engine's resources.
    fn shutdown(&mut self) -> (r: Result<(), EngineError>)
        requires
            old(self).wf(),
        ensures
            final(self).wf(),
            Self::step(*old(self), EngineCall::Shutdown, *final(self), done_reply(r)),
    ;
}

/// One byte of the gradient: red counts columns, green counts rows, blue and alpha are fixed.
pub open spec fn gradient_byte(x: nat, y: nat, channel: nat) -> u8 {
    if channel == 0 {
        (x % 256) as u8
    } else if channel == 1 {
        (y % 256) as u8
    } else if channel == 2 {
        0x80
    } else {
        0xFF
    }
}

/// A bitmap of `width` by `height` pixels of four bytes, row by row without padding; `pixel` gives
/// the byte of a column, a row and a channel.
pub open spec fn bitmap(
    width: nat,
    height: nat,
    pixel: spec_fn(nat, nat, nat) -> u8,
) -> Seq<u8> {
    Seq::new(
        4 * width * height,
        |i: int|
            pixel(
                ((i % (4 * width as int)) / 4) as nat,
                (i / (4 * width as int)) as nat,
                (i % 4) as nat,
            ),
    )
}

/// The byte of channel `c` of the pixel in column `x` and row `y` stands at
/// `(y * width + x) * 4 + c`.
pub proof fn bitmap_at(
    width: nat,
    height: nat,
    pixel: spec_fn(nat, nat, nat) -> u8,
    x: nat,
    y: nat,
    c: nat,
)
    requires
        x < width,
        y < height,
        c < 4,
    ensures
        0 <= y * (4 * width) + x * 4 + c < bitmap(width, height, pixel).len(),
        bitmap(width, height, pixel)[(y * (4 * width) + x * 4 + c) as int] == pixel(x, y, c),
{
    let row = 4 * width as int;
    let i = y * row + x * 4 + c;
    let r = 4 * x + c;
    assert(i == y * row + r);
    vstd::arithmetic::div_mod::lemma_fundamental_div_mod_converse(i, row, y as int, r as int);
    assert(i / row == y);
    assert(i % row == r);
    let k = y * width + x;
    assert(y * row + 4 * x == 4 * k) by (nonlinear_arith)
        requires
            row == 4 * width,
            k == y * width + x,
    ;
    assert(i % 4 == c);
    assert(y * row + row <= 4 * width * height) by (nonlinear_arith)
        requires
            y + 1 <= height,
            row == 4 * width,
    ;
    assert(0 <= y * row) by (nonlinear_arith)
        requires
            0 <= y,
            0 <= row,
    ;
}

/// The gradient of `width` by `height` pixels.
pub open spec fn gradient(width: nat, height: nat) -> Seq<u8> {
    bitmap(width, height, |x: nat, y: nat, c: nat| gradient_byte(x, y, c))
}

/// Where the bytes of the gradient stand.
pub proof fn gradient_at(width: nat, height: nat, x: nat, y: nat, c: nat)
    requires
        x < width,
        y < height,
        c < 4,
    ensures
        0 <= y * (4 * width) + x * 4 + c < gradient(width, height).len(),
        gradient(width, height)[(y * (4 * width) + x * 4 + c) as int] == gradient_byte(x, y, c),
{
    bitmap_at(width, height, |x: nat, y: nat, c: nat| gradient_byte(x, y, c), x, y, c);
}

/// Four bytes per pixel, saturating.
pub open spec fn row_bytes(width: u32) -> u32 {
    if width * 4 <= u32::MAX {
        (width * 4) as u32
    } else {
        u32::MAX
    }
}

/// Computes the bytes of one row.
pub fn stride_of(width: u32) -> (s: u32)
    ensures
        s == row_bytes(width),
{
    if width <= 0x3FFF_FFFF {
        width * 4
    } else {
        u32::MAX
    }
}

/// The port that developer tools should use: an explicit wish wins, 0 falls back to the configured
/// port, and no wish takes the configuration.
pub open spec fn devtools_choice(requested: Option<u16>, configured: Option<u16>) -> Option<u16> {
    match requested {
        Some(p) => if p == 0 && configured is Some {
            configured
        } else {
            Some(p)
        },
        None => configured,
    }
}

/// Chooses the developer tools port.
pub fn choose_devtools(requested: Option<u16>, configured: Option<u16>) -> (r: Option<u16>)
    ensures
        r == devtools_choice(requested, configured),
{
    match requested {
        Some(p) => {
            if p == 0 && configured.is_some() {
                configured
            } else {
                Some(p)
            }
        },
        None => configured,
    }
}

/// At least one pixel.
pub open spec fn at_least_one(n: u32) -> u32 {
    if n == 0 {
        1
    } else {
        n
    }
}

/// The size that a surface gives to an engine whose size was `width` by `height` and which
/// otherwise starts at `start_width` by `start_height`.
pub open spec fn bound_size(
    surface: SurfaceDescriptor,
    width: u32,
    height: u32,
    start_width: u32,
    start_height: u32,
) -> (u32, u32) {
    match surface {
        SurfaceDescriptor::Fallback { width: w, height: h, scale_factor: _ } => (
            at_least_one(w),
            at_least_one(h),
        ),
        _ => if width == 0 || height == 0 {
            (start_width, start_height)
        } else {
            (width, height)
        },
    }
}

/// Computes the size that a surface gives.
pub fn size_for_surface(
    surface: &SurfaceDescriptor,
    width: u32,
    height: u32,
    start_width: u32,
    start_height: u32,
) -> (r: (u32, u32))
    ensures
        r == bound_size(*surface, width, height, start_width, start_height),
{
    match surface {
        SurfaceDescriptor::Fallback { width: w, height: h, scale_factor: _ } => (
            one_or_more(*w),
            one_or_more(*h),
        ),
        _ => {
            if width == 0 || height == 0 {
                (start_width, start_height)
            } else {
                (width, height)
            }
        },
    }
}

/// Raises 0 to 1.
pub fn one_or_more(n: u32) -> (r: u32)
    ensures
        r == at_least_one(n),
{
    if n == 0 {
        1
    } else {
        n
    }
}

/// A sum in a machine word that wraps around once.
pub open spec fn wrapped_sum(a: nat, b: nat) -> usize {
    if a + b > usize::MAX {
        (a + b - usize::MAX - 1) as usize
    } else {
        (a + b) as usize
    }
}

/// A demonstration engine: it records what it is told and draws a fixed gradient.
pub struct DemoEngine {
    pub resources_dir: Option<String>,
    pub user_agent: Option<String>,
    pub init_scripts: Vec<String>,
    pub devtools_port_cfg: Option<u16>,
    pub prefer_zero_copy: bool,
    /// Whether frames can be placed in shared memory on this platform.
    pub zero_copy: bool,
    pub width: u32,
    pub height: u32,
    /// Bytes per row.
    pub stride: u32,
    pub last_url: Option<String>,
    pub next_frame_id: u64,
    /// Number of input events taken, modulo the machine word.
    pub input_events: usize,
}

/// View of a [`DemoEngine`].
pub struct DemoState {
    pub resources_dir: Option<Seq<char>>,
    pub user_agent: Option<Seq<char>>,
    pub init_scripts: Seq<Seq<char>>,
    pub devtools_port_cfg: Option<u16>,
    pub prefer_zero_copy: bool,
    pub zero_copy: bool,
    pub width: u32,
    pub height: u32,
    pub stride: u32,
    pub last_url: Option<Seq<char>>,
    pub next_frame_id: u64,
    pub input_events: usize,
}

impl View for DemoEngine {
    type V = DemoState;

    open spec fn view(&self) -> DemoState {
        DemoState {
            resources_dir: opt_view(self.resources_dir),
            user_agent: opt_view(self.user_agent),
            init_scripts: views(self.init_scripts@),
            devtools_port_cfg: self.devtools_port_cfg,
            prefer_zero_copy: self.prefer_zero_copy,
            zero_copy: self.zero_copy,
            width: self.width,
            height: self.height,
            stride: self.stride,
            last_url: opt_view(self.last_url),
            next_frame_id: self.next_frame_id,
            input_events: self.input_events,
        }
    }
}

impl DemoState {
    /// The state of a new engine.
    pub open spec fn fresh(zero_copy: bool) -> DemoState {
        DemoState {
            resources_dir: None,
            user_agent: None,
            init_scripts: Seq::empty(),
            devtools_port_cfg: None,
            prefer_zero_copy: false,
            zero_copy,
            width: 0,
            height: 0,
            stride: 0,
            last_url: None,
            next_frame_id: 0,
            input_events: 0,
        }
    }

    /// The same state with a definite size: 64 by 64 where no size is known.
    pub open spec fn sized(self) -> DemoState {
        let (w, h): (u32, u32) = if self.width == 0 || self.height == 0 {
            (64, 64)
        } else {
            (self.width, self.height)
        };
        DemoState { width: w, height: h, stride: row_bytes(w), ..self }
    }

    /// Whether the bitmap of the definite size can be addressed.
    pub open spec fn fits(self) -> bool {
        let s = self.sized();
        s.width * 4 <= u32::MAX && s.width * 4 * s.height <= usize::MAX
    }

    /// The capabilities that the engine reports.
    pub open spec fn capabilities(self) -> EngineCapabilitiesView {
        EngineCapabilitiesView {
            fd_passing: self.zero_copy,
            zero_copy_frames: self.zero_copy,
            compressed_frames: true,
            supported_compressed: seq![CompressedFormat::Png],
        }
    }

    /// The state that follows a call.
    pub open spec fn after(self, call: EngineCall) -> DemoState {
        match call {
            EngineCall::Init(init) => DemoState {
                resources_dir: init.resources_dir,
                user_agent: init.user_agent,
                init_scripts: init.init_scripts,
                devtools_port_cfg: init.devtools_port,
                prefer_zero_copy: init.prefer_zero_copy,
                ..self
            },
            EngineCall::BindSurface(surface) => {
                let (w, h) = bound_size(surface, self.width, self.height, 64, 64);
                DemoState { width: w, height: h, stride: row_bytes(w), ..self }
            },
            EngineCall::Load(url) => DemoState { last_url: Some(url), ..self },
            EngineCall::EvalScript(_) => self,
            EngineCall::Resize(w, h) => DemoState {
                width: at_least_one(w),
                height: at_least_one(h),
                stride: row_bytes(at_least_one(w)),
                ..self
            },
            EngineCall::InputEvents(events) => DemoState {
                input_events: wrapped_sum(self.input_events as nat, events.len()),
                ..self
            },
            EngineCall::RequestDraw | EngineCall::DrawNow => DemoState {
                next_frame_id: ((self.next_frame_id + 1) % 0x1_0000_0000_0000_0000) as u64,
                ..self.sized()
            },
            EngineCall::OpenDevtools(_) => self,
            EngineCall::Shutdown => DemoState { width: 0, height: 0, stride: 0, ..self },
        }
    }

    /// The frame that a draw produces.
    pub open spec fn drawn(self) -> EngineFrameView {
        let s = self.sized();
        let bytes = gradient(s.width as nat, s.height as nat);
        if self.zero_copy && self.prefer_zero_copy {
            EngineFrameView::SharedMemoryExport {
                width: s.width,
                height: s.height,
                stride: s.stride,
                format: PixelFormat::Rgba8888,
                bytes,
            }
        } else {
            EngineFrameView::SharedMemoryInline {
                width: s.width,
                height: s.height,
                stride: s.stride,
                format: PixelFormat::Rgba8888,
                bytes,
            }
        }
    }

    /// What a call comes back with.
    pub open spec fn reply(self, call: EngineCall) -> EngineReply {
        match call {
            EngineCall::Init(_) => EngineReply::Capabilities(self.capabilities()),
            EngineCall::RequestDraw | EngineCall::DrawNow => EngineReply::Frame(
                Some(self.drawn()),
            ),
            EngineCall::OpenDevtools(requested) => EngineReply::Port(
                devtools_choice(requested, self.devtools_port_cfg),
            ),
            _ => EngineReply::Done,
        }
    }
}

impl DemoEngine {
    /// An engine without a size that hands frames out by value.
    pub fn new() -> (e: Self)
        ensures
            e@ == DemoState::fresh(false),
    {
        let e = DemoEngine {
            resources_dir: None,
            user_agent: None,
            init_scripts: Vec::new(),
            devtools_port_cfg: None,
            prefer_zero_copy: false,
            zero_copy: false,
            width: 0,
            height: 0,
            stride: 0,
            last_url: None,
            next_frame_id: 0,
            input_events: 0,
        };
        proof {
            assert(e@.init_scripts =~= Seq::empty());
        }
        e
    }

    /// An engine without a size on a platform that can share memory.
    pub fn with_zero_copy() -> (e: Self)
        ensures
            e@ == DemoState::fresh(true),
    {
        let mut e = DemoEngine::new();
        e.zero_copy = true;
        e
    }

    /// Gives the engine a definite size.
    pub fn ensure_size(&mut self)
        ensures
            final(self)@ == old(self)@.sized(),
    {
        if self.width == 0 || self.height == 0 {
            self.width = 64;
            self.height = 64;
        }
        self.stride = stride_of(self.width);
    }

    /// Draws the gradient of the current size.
    pub fn make_rgba_gradient(&self) -> (bytes: Vec<u8>)
        requires
            self.stride == self.width * 4,
            self.width * 4 * self.height <= usize::MAX,
        ensures
            bytes@ == gradient(self.width as nat, self.height as nat),
    {
        let w: usize = self.width as usize;
        let h: usize = self.height as usize;
        let ghost full = gradient(w as nat, h as nat);
        let ghost row = 4 * w as int;
        let mut bytes: Vec<u8> = Vec::new();
        let mut y: usize = 0;
        while y < h
            invariant
                y <= h,
                row == 4 * w,
                full == gradient(w as nat, h as nat),
                bytes.len() == y * row,
                forall|i: int| 0 <= i < bytes.len() ==> bytes[i] == full[i],
            decreases h - y,
        {
            let mut x: usize = 0;
            while x < w
                invariant
                    y < h,
                    x <= w,
                    row == 4 * w,
                    full == gradient(w as nat, h as nat),
                    bytes.len() == y * row + 4 * x,
                    forall|i: int| 0 <= i < bytes.len() ==> bytes[i] == full[i],
                decreases w - x,
            {
                proof {
                    gradient_at(w as nat, h as nat, x as nat, y as nat, 0);
                    gradient_at(w as nat, h as nat, x as nat, y as nat, 1);
                    gradient_at(w as nat, h as nat, x as nat, y as nat, 2);
                    gradient_at(w as nat, h as nat, x as nat, y as nat, 3);
                }
                bytes.push((x % 256) as u8);
                bytes.push((y % 256) as u8);
                bytes.push(0x80);
                bytes.push(0xFF);
                x += 1;
            }
            proof {
                assert((y + 1) * row == y * row + row) by (nonlinear_arith);
            }
            y += 1;
        }
        proof {
            assert(h * row == 4 * w * h) by (nonlinear_arith)
                requires
                    row == 4 * w,
            ;
            assert(bytes@ =~= full);
        }
        bytes
    }
}

impl Engine for DemoEngine {
    open spec fn step(pre: Self, call: EngineCall, post: Self, reply: EngineReply) -> bool {
        post@ == pre@.after(call) && reply == pre@.reply(call)
    }

    open spec fn wf(&self) -> bool {
        true
    }

    open spec fn can_draw(&self) -> bool {
        self@.fits()
    }

    fn drawable(&self) -> (b: bool) {
        let w: u32 = if self.width == 0 || self.height == 0 {
            64
        } else {
            self.width
        };
        let h: u32 = if self.width == 0 || self.height == 0 {
            64
        } else {
            self.height
        };
        if w > 0x3FFF_FFFF {
            return false;
        }
        proof {
            assert(w * 4 * h <= 0xFFFF_FFFF * 0xFFFF_FFFF) by (nonlinear_arith)
                requires
                    0 <= w * 4 <= 0xFFFF_FFFF,
                    0 <= h <= 0xFFFF_FFFF,
            ;
        }
        let total: u64 = (w as u64 * 4) * (h as u64);
        total <= usize::MAX as u64
    }

    fn init(&mut self, init: EngineInit) -> (r: Result<EngineCapabilities, EngineError>) {
        self.resources_dir = init.resources_dir;
        self.user_agent = init.user_agent;
        self.init_scripts = init.init_scripts;
        self.devtools_port_cfg = init.devtools_port;
        self.prefer_zero_copy = init.prefer_zero_copy;
        let mut supported: Vec<CompressedFormat> = Vec::new();
        supported.push(CompressedFormat::Png);
        proof {
            assert(supported@ =~= seq![CompressedFormat::Png]);
        }
        Ok(
            EngineCapabilities {
                fd_passing: self.zero_copy,
                zero_copy_frames: self.zero_copy,
                compressed_frames: true,
                supported_compressed: supported,
            },
        )
    }

    fn bind_surface(&mut self, surface: &SurfaceDescriptor) -> (r: Result<(), EngineError>) {
        let (w, h) = size_for_surface(surface, self.width, self.height, 64, 64);
        self.width = w;
        self.height = h;
        self.ensure_size();
        Ok(())
    }

    fn load(&mut self, url_or_data: &str) -> (r: Result<(), EngineError>) {
        self.last_url = Some(url_or_data.to_owned());
        Ok(())
    }

    fn eval_script(&mut self, source: &str) -> (r: Result<(), EngineError>) {
        Ok(())
    }

    fn resize(&mut self, width: u32, height: u32) -> (r: Result<(), EngineError>) {
        self.width = one_or_more(width);
        self.height = one_or_more(height);
        self.ensure_size();
        Ok(())
    }

    fn input_events(&mut self, events: &Vec<IpcInputEvent>) -> (r: Result<(), EngineError>) {
        self.input_events = self.input_events.wrapping_add(events.len());
        Ok(())
    }

    fn request_draw(&mut self) -> (r: Result<Option<EngineFrame>, EngineError>) {
        self.draw_now()
    }

    fn draw_now(&mut self) -> (r: Result<Option<EngineFrame>, EngineError>) {
        self.ensure_size();
        let bytes = self.make_rgba_gradient();
        self.next_frame_id = self.next_frame_id.wrapping_add(1);
        if self.zero_copy && self.prefer_zero_copy {
            return Ok(
                Some(
                    EngineFrame::SharedMemoryExport {
                        width: self.width,
                        height: self.height,
                        stride: self.stride,
                        format: PixelFormat::Rgba8888,
                        bytes,
                    },
                ),
            );
        }
        Ok(
            Some(
                EngineFrame::SharedMemoryInline {
                    width: self.width,
                    height: self.height,
                    stride: self.stride,
                    format: PixelFormat::Rgba8888,
                    bytes,
                },
            ),
        )
    }

    fn open_devtools(&mut self, requested: Option<u16>) -> (r: Result<Option<u16>, EngineError>) {
        Ok(choose_devtools(requested, self.devtools_port_cfg))
    }

    fn shutdown(&mut self) -> (r: Result<(), EngineError>) {
        self.width = 0;
        self.height = 0;
        self.stride = 0;
        Ok(())
    }
}

/// Once a surface is bound or a size was set, the demonstration engine has a size of at least one
/// pixel, whatever it was told, and its rows have their length.
pub proof fn demo_has_a_size(s: DemoState, call: EngineCall)
    requires
        call is BindSurface || call is Resize,
    ensures
        s.after(call).width > 0,
        s.after(call).height > 0,
        s.after(call).stride == row_bytes(s.after(call).width),
        s.after(call).sized() == s.after(call),
{
}

/// After shutting down, the demonstration engine draws at its first size again.
pub proof fn demo_starts_over(s: DemoState)
    ensures
        s.after(EngineCall::Shutdown).sized().width == 64,
        s.after(EngineCall::Shutdown).sized().height == 64,
{
}

} // verus!
