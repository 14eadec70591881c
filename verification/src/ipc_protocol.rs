//! Versioned messages exchanged between a host and the render server.
//!
//! An [`Envelope`] carries a protocol version, a correlation id, flags and one typed message: a
//! request of the host, a response of the server, or an event of the server.  Each type that owns
//! text or bytes has a view, in which text is a sequence of characters and bytes are a sequence of
//! `u8`; contracts speak of these views.  Fractional numbers travel by their bit patterns.
use vstd::prelude::*;
use crate::text::{opt_bytes, opt_view, views};

verus! {

/// Protocol version spoken by this library.
pub const PROTOCOL_VERSION: u16 = 1;

/// Lowest protocol version offered in a handshake.
pub const PROTOCOL_MIN_VERSION: u16 = 1;

/// Highest protocol version offered in a handshake.
pub const PROTOCOL_MAX_VERSION: u16 = PROTOCOL_VERSION;

/// A binary32 number by its bit pattern.
#[derive(Debug, Clone, Copy, PartialEq, Eq, Structural)]
pub struct Real32 {
    pub bits: u32,
}

/// A binary64 number by its bit pattern.
#[derive(Debug, Clone, Copy, PartialEq, Eq, Structural)]
pub struct Real64 {
    pub bits: u64,
}

/// A versioned message.
#[derive(Debug, Clone, PartialEq)]
pub struct Envelope {
    /// Protocol version of this message.
    pub version: u16,
    /// Correlation id that matches replies to requests.
    pub id: u64,
    /// Reserved bit field.
    pub flags: u32,
    pub message: Message,
}

/// Directional message categories.
#[derive(Debug, Clone, PartialEq)]
pub enum Message {
    Request(Request),
    Response(Response),
    Event(Event),
}

/// Requests of the host.
#[derive(Debug, Clone, PartialEq)]
pub enum Request {
    /// Handshake.
    Init { client_name: String, supported: VersionRange, config: ControllerConfig },
    /// Binds the renderer to a surface.
    BindSurface { surface: SurfaceDescriptor },
    /// Navigates to a URL.
    Load { url: String },
    /// Evaluates a script in the page.
    EvalScript { source: String, request_id: Option<u64> },
    /// Reports a new size in physical pixels.
    Resize { width: u32, height: u32 },
    /// Asks for a draw on the next frame.
    RequestDraw,
    /// Asks for an immediate draw.
    DrawNow,
    /// A batch of input events.
    InputEvent { events: Vec<IpcInputEvent> },
    /// Calls a named command with a JSON payload.
    Invoke { command: String, payload: Vec<u8>, request_id: Option<u64> },
    /// Asks for a graceful end.
    Shutdown,
}

/// Responses of the server.
#[derive(Debug, Clone, PartialEq)]
pub enum Response {
    /// The request was taken; nothing else to report.
    Ack { in_reply_to: u64 },
    /// The request was refused.
    Error { in_reply_to: u64, code: ErrorCode, message: String },
    /// Reply to a handshake.
    InitAck {
        in_reply_to: u64,
        chosen_version: u16,
        server_name: String,
        capabilities: Capabilities,
    },
    /// Reply to a command call.
    InvokeResult { in_reply_to: u64, ok: bool, data: Option<Vec<u8>>, error: Option<String> },
}

/// Events of the server.
#[derive(Debug, Clone, PartialEq)]
pub enum Event {
    /// A frame can be presented.
    FrameReady { frame_id: u64, descriptor: FrameDescriptor },
    /// Navigation progress.
    Navigation { status: NavigationStatus, url: Option<String>, http_status: Option<u16> },
    /// Console output of the page or the engine.
    ConsoleMessage {
        level: ConsoleLevel,
        message: String,
        source: Option<String>,
        line: Option<u32>,
        column: Option<u32>,
    },
    /// A developer tools port is open.
    DevToolsPortOpened { port: u16, url: Option<String> },
}

/// An inclusive range of protocol versions.
#[derive(Debug, Clone, Copy, PartialEq, Eq, Structural)]
pub struct VersionRange {
    pub min: u16,
    pub max: u16,
}

impl Default for VersionRange {
    /// The versions that this library speaks.
    fn default() -> (r: Self)
        ensures
            r.min == PROTOCOL_MIN_VERSION,
            r.max == PROTOCOL_MAX_VERSION,
    {
        VersionRange { min: PROTOCOL_MIN_VERSION, max: PROTOCOL_MAX_VERSION }
    }
}

/// The part of a controller configuration that the server needs.
#[derive(Debug, Clone, PartialEq)]
pub struct ControllerConfig {
    pub resources_dir: Option<PathString>,
    /// 0 asks for any free port.
    pub devtools_port: Option<u16>,
    pub user_agent: Option<String>,
    pub init_scripts: Vec<String>,
    pub ipc_tuning: Option<IpcTuning>,
}

/// Batching and back-pressure limits.
#[derive(Debug, Clone, Copy, PartialEq, Eq, Structural)]
pub struct IpcTuning {
    pub max_in_flight: u16,
    pub coalesce_window_us: u32,
}

/// A surface that frames are rendered for.
#[derive(Debug, Clone, PartialEq, Eq, Structural)]
pub enum SurfaceDescriptor {
    Wayland { surface_id: HandleToken, display_id: Option<HandleToken> },
    X11 { window: u64, display: Option<HandleToken> },
    Windows { hwnd: u64, hmonitor: Option<u64> },
    MacOs { ns_view: u64, ns_window: Option<u64> },
    /// Only a size is known.
    Fallback { width: u32, height: u32, scale_factor: Real32 },
}

/// An input event on the wire.
#[derive(Debug, Clone, PartialEq)]
pub enum IpcInputEvent {
    MouseMove { x: Real64, y: Real64, timestamp_us: Option<u64> },
    MouseButton { button: MouseButton, state: ButtonState, timestamp_us: Option<u64> },
    Scroll { delta_x: Real32, delta_y: Real32, is_precise: bool, timestamp_us: Option<u64> },
    KeyDown { key: String, timestamp_us: Option<u64> },
    KeyUp { key: String, timestamp_us: Option<u64> },
    CharInput { ch: char, timestamp_us: Option<u64> },
    FocusChanged { focused: bool, timestamp_us: Option<u64> },
    PointerEntered { timestamp_us: Option<u64> },
    PointerLeft { timestamp_us: Option<u64> },
}

#[derive(Debug, Clone, Copy, PartialEq, Eq, Structural)]
pub enum MouseButton {
    Left,
    Middle,
    Right,
    Other(u8),
}

#[derive(Debug, Clone, Copy, PartialEq, Eq, Structural)]
pub enum ButtonState {
    Pressed,
    Released,
}

/// What the server can do.
#[derive(Debug, Clone, PartialEq)]
pub struct Capabilities {
    /// Native handles can travel beside messages.
    pub fd_passing: bool,
    /// Frames can be shared without copying.
    pub zero_copy_frames: bool,
    /// Frames can be sent compressed.
    pub compressed_frames: bool,
    pub supported_compressed: Vec<CompressedFormat>,
    /// Names of further capabilities.
    pub extra: Vec<String>,
}

/// How a frame can be obtained.
#[allow(inconsistent_fields)]
#[derive(Debug, Clone, PartialEq)]
pub enum FrameDescriptor {
    LinuxDmabuf {
        width: u32,
        height: u32,
        fourcc: u32,
        modifier: u64,
        planes: Vec<DmabufPlane>,
        fence: Option<HandleToken>,
    },
    MacOsIoSurface { width: u32, height: u32, pixel_format: u32, io_surface: HandleToken },
    WindowsDxgiSharedHandle { width: u32, height: u32, dxgi_format: u32, handle: HandleToken },
    SharedMemoryImage {
        width: u32,
        height: u32,
        stride: u32,
        format: PixelFormat,
        shm: HandleToken,
        size: u64,
    },
    CompressedImage { width: u32, height: u32, format: CompressedFormat, payload: PayloadLocator },
}

/// One plane of a dmabuf image.
#[derive(Debug, Clone, Copy, PartialEq, Eq, Structural)]
pub struct DmabufPlane {
    pub fd: HandleToken,
    pub offset: u32,
    pub stride: u32,
    pub plane_index: u8,
}

#[derive(Debug, Clone, Copy, PartialEq, Eq, Structural)]
pub enum PixelFormat {
    Rgba8888,
    Bgra8888,
    Rgbx8888,
    Bgrx8888,
    Rg16f,
    Rgba16f,
    Unknown(u32),
}

#[derive(Debug, Clone, Copy, PartialEq, Eq, Structural)]
pub enum CompressedFormat {
    Png,
    Webp,
    Jpeg,
    Avif,
    /// A vendor format by its number.
    Other(u32),
}

/// Where payload bytes are found.
#[derive(Debug, Clone, PartialEq, Eq)]
pub enum PayloadLocator {
    Inline(Vec<u8>),
    Handle(HandleToken),
}

#[derive(Debug, Clone, Copy, PartialEq, Eq, Structural)]
pub enum NavigationStatus {
    Started,
    Committed,
    Finished,
    Failed,
}

#[derive(Debug, Clone, Copy, PartialEq, Eq, Structural)]
pub enum ConsoleLevel {
    Debug,
    Info,
    Warn,
    Error,
}

/// Why a request was refused.
#[derive(Debug, Clone, Copy, PartialEq, Eq, Structural)]
pub enum ErrorCode {
    InvalidState,
    Unsupported,
    BadMessage,
    SurfaceError,
    Internal,
}

/// Correlates a native handle that travels beside a message with the message.
#[derive(Debug, Clone, Copy, PartialEq, Eq, Hash, Structural)]
pub struct HandleToken(pub u64);

/// A path as text.
#[derive(Debug, Clone, PartialEq, Eq)]
pub struct PathString(pub String);

impl From<String> for PathString {
    fn from(s: String) -> (r: Self) {
        PathString(s)
    }
}

impl vstd::std_specs::convert::FromSpecImpl<String> for PathString {
    open spec fn obeys_from_spec() -> bool {
        true
    }

    open spec fn from_spec(s: String) -> Self {
        PathString(s)
    }
}

impl<'a> From<&'a str> for PathString {
    fn from(s: &'a str) -> (r: Self)
        ensures
            r.0@ == s@,
    {
        PathString(s.to_owned())
    }
}

impl<'a> vstd::std_specs::convert::FromSpecImpl<&'a str> for PathString {
    open spec fn obeys_from_spec() -> bool {
        false
    }

    open spec fn from_spec(s: &'a str) -> Self {
        arbitrary()
    }
}

/// View of an [`Envelope`].
pub struct EnvelopeView {
    pub version: u16,
    pub id: u64,
    pub flags: u32,
    pub message: MessageView,
}

/// View of a [`Message`].
pub enum MessageView {
    Request(RequestView),
    Response(ResponseView),
    Event(EventView),
}

/// View of a [`Request`].
pub enum RequestView {
    Init { client_name: Seq<char>, supported: VersionRange, config: ControllerConfigView },
    BindSurface { surface: SurfaceDescriptor },
    Load { url: Seq<char> },
    EvalScript { source: Seq<char>, request_id: Option<u64> },
    Resize { width: u32, height: u32 },
    RequestDraw,
    DrawNow,
    InputEvent { events: Seq<InputEventView> },
    Invoke { command: Seq<char>, payload: Seq<u8>, request_id: Option<u64> },
    Shutdown,
}

/// View of a [`Response`].
pub enum ResponseView {
    Ack { in_reply_to: u64 },
    Error { in_reply_to: u64, code: ErrorCode, message: Seq<char> },
    InitAck {
        in_reply_to: u64,
        chosen_version: u16,
        server_name: Seq<char>,
        capabilities: CapabilitiesView,
    },
    InvokeResult {
        in_reply_to: u64,
        ok: bool,
        data: Option<Seq<u8>>,
        error: Option<Seq<char>>,
    },
}

/// View of an [`Event`].
pub enum EventView {
    FrameReady { frame_id: u64, descriptor: FrameView },
    Navigation { status: NavigationStatus, url: Option<Seq<char>>, http_status: Option<u16> },
    ConsoleMessage {
        level: ConsoleLevel,
        message: Seq<char>,
        source: Option<Seq<char>>,
        line: Option<u32>,
        column: Option<u32>,
    },
    DevToolsPortOpened { port: u16, url: Option<Seq<char>> },
}

/// View of a [`ControllerConfig`].
pub struct ControllerConfigView {
    pub resources_dir: Option<Seq<char>>,
    pub devtools_port: Option<u16>,
    pub user_agent: Option<Seq<char>>,
    pub init_scripts: Seq<Seq<char>>,
    pub ipc_tuning: Option<IpcTuning>,
}

/// View of an [`IpcInputEvent`].
pub enum InputEventView {
    MouseMove { x: Real64, y: Real64, timestamp_us: Option<u64> },
    MouseButton { button: MouseButton, state: ButtonState, timestamp_us: Option<u64> },
    Scroll { delta_x: Real32, delta_y: Real32, is_precise: bool, timestamp_us: Option<u64> },
    KeyDown { key: Seq<char>, timestamp_us: Option<u64> },
    KeyUp { key: Seq<char>, timestamp_us: Option<u64> },
    CharInput { ch: char, timestamp_us: Option<u64> },
    FocusChanged { focused: bool, timestamp_us: Option<u64> },
    PointerEntered { timestamp_us: Option<u64> },
    PointerLeft { timestamp_us: Option<u64> },
}

/// View of [`Capabilities`].
pub struct CapabilitiesView {
    pub fd_passing: bool,
    pub zero_copy_frames: bool,
    pub compressed_frames: bool,
    pub supported_compressed: Seq<CompressedFormat>,
    pub extra: Seq<Seq<char>>,
}

/// View of a [`FrameDescriptor`].
#[allow(inconsistent_fields)]
pub enum FrameView {
    LinuxDmabuf {
        width: u32,
        height: u32,
        fourcc: u32,
        modifier: u64,
        planes: Seq<DmabufPlane>,
        fence: Option<HandleToken>,
    },
    MacOsIoSurface { width: u32, height: u32, pixel_format: u32, io_surface: HandleToken },
    WindowsDxgiSharedHandle { width: u32, height: u32, dxgi_format: u32, handle: HandleToken },
    SharedMemoryImage {
        width: u32,
        height: u32,
        stride: u32,
        format: PixelFormat,
        shm: HandleToken,
        size: u64,
    },
    CompressedImage { width: u32, height: u32, format: CompressedFormat, payload: PayloadView },
}

/// View of a [`PayloadLocator`].
pub enum PayloadView {
    Inline(Seq<u8>),
    Handle(HandleToken),
}

impl View for Envelope {
    type V = EnvelopeView;

    open spec fn view(&self) -> EnvelopeView {
        EnvelopeView {
            version: self.version,
            id: self.id,
            flags: self.flags,
            message: self.message@,
        }
    }
}

impl View for Message {
    type V = MessageView;

    open spec fn view(&self) -> MessageView {
        match *self {
            Message::Request(r) => MessageView::Request(r@),
            Message::Response(r) => MessageView::Response(r@),
            Message::Event(e) => MessageView::Event(e@),
        }
    }
}

impl View for Request {
    type V = RequestView;

    open spec fn view(&self) -> RequestView {
        match *self {
            Request::Init { client_name, supported, config } => RequestView::Init {
                client_name: client_name@,
                supported,
                config: config@,
            },
            Request::BindSurface { surface } => RequestView::BindSurface { surface },
            Request::Load { url } => RequestView::Load { url: url@ },
            Request::EvalScript { source, request_id } => RequestView::EvalScript {
                source: source@,
                request_id,
            },
            Request::Resize { width, height } => RequestView::Resize { width, height },
            Request::RequestDraw => RequestView::RequestDraw,
            Request::DrawNow => RequestView::DrawNow,
            Request::InputEvent { events } => RequestView::InputEvent {
                events: event_views(events@),
            },
            Request::Invoke { command, payload, request_id } => RequestView::Invoke {
                command: command@,
                payload: payload@,
                request_id,
            },
            Request::Shutdown => RequestView::Shutdown,
        }
    }
}

/// The views of a batch of input events.
pub open spec fn event_views(events: Seq<IpcInputEvent>) -> Seq<InputEventView> {
    Seq::new(events.len(), |i: int| events[i]@)
}

impl View for Response {
    type V = ResponseView;

    open spec fn view(&self) -> ResponseView {
        match *self {
            Response::Ack { in_reply_to } => ResponseView::Ack { in_reply_to },
            Response::Error { in_reply_to, code, message } => ResponseView::Error {
                in_reply_to,
                code,
                message: message@,
            },
            Response::InitAck { in_reply_to, chosen_version, server_name, capabilities } => {
                ResponseView::InitAck {
                    in_reply_to,
                    chosen_version,
                    server_name: server_name@,
                    capabilities: capabilities@,
                }
            },
            Response::InvokeResult { in_reply_to, ok, data, error } => ResponseView::InvokeResult {
                in_reply_to,
                ok,
                data: opt_bytes(data),
                error: opt_view(error),
            },
        }
    }
}

impl View for Event {
    type V = EventView;

    open spec fn view(&self) -> EventView {
        match *self {
            Event::FrameReady { frame_id, descriptor } => EventView::FrameReady {
                frame_id,
                descriptor: descriptor@,
            },
            Event::Navigation { status, url, http_status } => EventView::Navigation {
                status,
                url: opt_view(url),
                http_status,
            },
            Event::ConsoleMessage { level, message, source, line, column } => {
                EventView::ConsoleMessage {
                    level,
                    message: message@,
                    source: opt_view(source),
                    line,
                    column,
                }
            },
            Event::DevToolsPortOpened { port, url } => EventView::DevToolsPortOpened {
                port,
                url: opt_view(url),
            },
        }
    }
}

/// The text of an optional path.
pub open spec fn opt_path(p: Option<PathString>) -> Option<Seq<char>> {
    match p {
        Some(p) => Some(p.0@),
        None => None,
    }
}

impl View for ControllerConfig {
    type V = ControllerConfigView;

    open spec fn view(&self) -> ControllerConfigView {
        ControllerConfigView {
            resources_dir: opt_path(self.resources_dir),
            devtools_port: self.devtools_port,
            user_agent: opt_view(self.user_agent),
            init_scripts: views(self.init_scripts@),
            ipc_tuning: self.ipc_tuning,
        }
    }
}

impl View for IpcInputEvent {
    type V = InputEventView;

    open spec fn view(&self) -> InputEventView {
        match *self {
            IpcInputEvent::MouseMove { x, y, timestamp_us } => InputEventView::MouseMove {
                x,
                y,
                timestamp_us,
            },
            IpcInputEvent::MouseButton { button, state, timestamp_us } => {
                InputEventView::MouseButton { button, state, timestamp_us }
            },
            IpcInputEvent::Scroll { delta_x, delta_y, is_precise, timestamp_us } => {
                InputEventView::Scroll { delta_x, delta_y, is_precise, timestamp_us }
            },
            IpcInputEvent::KeyDown { key, timestamp_us } => InputEventView::KeyDown {
                key: key@,
                timestamp_us,
            },
            IpcInputEvent::KeyUp { key, timestamp_us } => InputEventView::KeyUp {
                key: key@,
                timestamp_us,
            },
            IpcInputEvent::CharInput { ch, timestamp_us } => InputEventView::CharInput {
                ch,
                timestamp_us,
            },
            IpcInputEvent::FocusChanged { focused, timestamp_us } => InputEventView::FocusChanged {
                focused,
                timestamp_us,
            },
            IpcInputEvent::PointerEntered { timestamp_us } => InputEventView::PointerEntered {
                timestamp_us,
            },
            IpcInputEvent::PointerLeft { timestamp_us } => InputEventView::PointerLeft {
                timestamp_us,
            },
        }
    }
}

impl View for Capabilities {
    type V = CapabilitiesView;

    open spec fn view(&self) -> CapabilitiesView {
        CapabilitiesView {
            fd_passing: self.fd_passing,
            zero_copy_frames: self.zero_copy_frames,
            compressed_frames: self.compressed_frames,
            supported_compressed: self.supported_compressed@,
            extra: views(self.extra@),
        }
    }
}

impl View for FrameDescriptor {
    type V = FrameView;

    open spec fn view(&self) -> FrameView {
        match *self {
            FrameDescriptor::LinuxDmabuf { width, height, fourcc, modifier, planes, fence } => {
                FrameView::LinuxDmabuf { width, height, fourcc, modifier, planes: planes@, fence }
            },
            FrameDescriptor::MacOsIoSurface { width, height, pixel_format, io_surface } => {
                FrameView::MacOsIoSurface { width, height, pixel_format, io_surface }
            },
            FrameDescriptor::WindowsDxgiSharedHandle { width, height, dxgi_format, handle } => {
                FrameView::WindowsDxgiSharedHandle { width, height, dxgi_format, handle }
            },
            FrameDescriptor::SharedMemoryImage { width, height, stride, format, shm, size } => {
                FrameView::SharedMemoryImage { width, height, stride, format, shm, size }
            },
            FrameDescriptor::CompressedImage { width, height, format, payload } => {
                FrameView::CompressedImage { width, height, format, payload: payload@ }
            },
        }
    }
}

impl View for PayloadLocator {
    type V = PayloadView;

    open spec fn view(&self) -> PayloadView {
        match *self {
            PayloadLocator::Inline(b) => PayloadView::Inline(b@),
            PayloadLocator::Handle(t) => PayloadView::Handle(t),
        }
    }
}

} // verus!
