//! The controller of a web view, as an embedder drives it.
//!
//! A controller is initialized once, bound to a surface once, used, and shut down.  Which calls
//! succeed in which state is fixed by [`ControllerState::verdict`]; what a successful call changes
//! is fixed by [`ControllerState::after`].
use vstd::prelude::*;
use crate::calls::{CallLog, Sink};
use crate::ipc_protocol::{Real32, Real64};
use crate::text::{joined, opt_view, views};
use crate::winit_runtime::NativeSurfaceHandles;

verus! {

/// A size in physical pixels.
#[derive(Debug, Clone, Copy, PartialEq, Eq, Structural)]
pub struct PhysicalSize {
    pub width: u32,
    pub height: u32,
}

/// How a controller is set up.
#[derive(Debug, Clone, PartialEq, Eq)]
pub struct ControllerConfig {
    pub mode: ControllerMode,
    /// Binary of the render server, for a server in another process.
    pub external_bin_path: Option<String>,
    pub resources_dir: Option<String>,
    /// 0 asks for any free port.
    pub devtools_port: Option<u16>,
    pub user_agent: Option<String>,
    /// Scripts to run early in the life of a page.
    pub init_scripts: Vec<String>,
    /// Socket of the render server, where handles are to be passed.
    pub unix_socket_path: Option<String>,
}

/// View of a [`ControllerConfig`].
pub struct ConfigView {
    pub mode: ControllerMode,
    pub external_bin_path: Option<Seq<char>>,
    pub resources_dir: Option<Seq<char>>,
    pub devtools_port: Option<u16>,
    pub user_agent: Option<Seq<char>>,
    pub init_scripts: Seq<Seq<char>>,
    pub unix_socket_path: Option<Seq<char>>,
}

impl View for ControllerConfig {
    type V = ConfigView;

    open spec fn view(&self) -> ConfigView {
        ConfigView {
            mode: self.mode,
            external_bin_path: opt_view(self.external_bin_path),
            resources_dir: opt_view(self.resources_dir),
            devtools_port: self.devtools_port,
            user_agent: opt_view(self.user_agent),
            init_scripts: views(self.init_scripts@),
            unix_socket_path: opt_view(self.unix_socket_path),
        }
    }
}

/// The configuration in which nothing is set.
pub open spec fn default_config() -> ConfigView {
    ConfigView {
        mode: ControllerMode::InProcess,
        external_bin_path: None,
        resources_dir: None,
        devtools_port: None,
        user_agent: None,
        init_scripts: Seq::empty(),
        unix_socket_path: None,
    }
}

impl Default for ControllerConfig {
    /// Nothing set.
    fn default() -> (c: Self)
        ensures
            c@ == default_config(),
    {
        let c = ControllerConfig {
            mode: ControllerMode::InProcess,
            external_bin_path: None,
            resources_dir: None,
            devtools_port: None,
            user_agent: None,
            init_scripts: Vec::new(),
            unix_socket_path: None,
        };
        proof {
            assert(c@.init_scripts =~= Seq::empty());
        }
        c
    }
}

/// Where the engine runs.
#[derive(Debug, Clone, Copy, PartialEq, Eq, Structural)]
pub enum ControllerMode {
    /// In this process.
    InProcess,
    /// In a render server process.
    OutOfProcess,
}

impl Default for ControllerMode {
    fn default() -> (m: Self)
        ensures
            m == ControllerMode::InProcess,
    {
        ControllerMode::InProcess
    }
}

/// Errors of controller operations.
#[derive(Debug, Clone, PartialEq, Eq)]
pub enum ControllerError {
    NotInitialized(&'static str),
    SurfaceNotBound,
    InvalidState(&'static str),
    Unsupported(&'static str),
    Backend(&'static str),
    BackendMsg(String),
}

/// View of a [`ControllerError`].
pub enum ErrorView {
    NotInitialized(Seq<char>),
    SurfaceNotBound,
    InvalidState(Seq<char>),
    Unsupported(Seq<char>),
    Backend(Seq<char>),
    BackendMsg(Seq<char>),
}

impl View for ControllerError {
    type V = ErrorView;

    open spec fn view(&self) -> ErrorView {
        match *self {
            ControllerError::NotInitialized(s) => ErrorView::NotInitialized(s@),
            ControllerError::SurfaceNotBound => ErrorView::SurfaceNotBound,
            ControllerError::InvalidState(s) => ErrorView::InvalidState(s@),
            ControllerError::Unsupported(s) => ErrorView::Unsupported(s@),
            ControllerError::Backend(s) => ErrorView::Backend(s@),
            ControllerError::BackendMsg(s) => ErrorView::BackendMsg(s@),
        }
    }
}

impl ErrorView {
    /// The message text of an error.
    pub open spec fn message(self) -> Seq<char> {
        match self {
            ErrorView::NotInitialized(s) => "not initialized: "@ + s,
            ErrorView::SurfaceNotBound => "surface not bound"@,
            ErrorView::InvalidState(s) => "invalid state: "@ + s,
            ErrorView::Unsupported(s) => "unsupported: "@ + s,
            ErrorView::Backend(s) => "backend error: "@ + s,
            ErrorView::BackendMsg(s) => "backend error: "@ + s,
        }
    }
}

impl ControllerError {
    /// Writes the message text.
    pub fn to_text(&self) -> (s: String)
        ensures
            s@ == self@.message(),
    {
        match self {
            ControllerError::NotInitialized(w) => joined("not initialized: ", w),
            ControllerError::SurfaceNotBound => "surface not bound".to_owned(),
            ControllerError::InvalidState(w) => joined("invalid state: ", w),
            ControllerError::Unsupported(w) => joined("unsupported: ", w),
            ControllerError::Backend(m) => joined("backend error: ", m),
            ControllerError::BackendMsg(m) => joined("backend error: ", m.as_str()),
        }
    }
}

/// The error of an operation, if it failed.
pub open spec fn failure<T>(r: Result<T, ControllerError>) -> Option<ErrorView> {
    match r {
        Ok(_) => None,
        Err(e) => Some(e@),
    }
}

/// An input event that an embedder forwards.
#[derive(Debug, Clone, PartialEq, Eq)]
pub enum InputEvent {
    MouseMove { x: Real64, y: Real64 },
    MouseButton { button: u8, state: ButtonState },
    Scroll { delta_x: Real32, delta_y: Real32, is_precise: bool },
    KeyDown { key: &'static str },
    KeyUp { key: &'static str },
    CharInput { ch: char },
    FocusChanged { focused: bool },
    PointerEntered,
    PointerLeft,
}

#[derive(Debug, Clone, Copy, PartialEq, Eq, Structural)]
pub enum ButtonState {
    Pressed,
    Released,
}

/// What a controller reports to its host.
#[derive(Debug, Clone, PartialEq, Eq)]
pub enum ControllerEvent {
    Navigation { status: NavigationStatus, url: Option<String>, http_status: Option<u16> },
    Console {
        level: ConsoleLevel,
        message: String,
        source: Option<String>,
        line: Option<u32>,
        column: Option<u32>,
    },
    DevToolsPortOpened { port: u16, url: Option<String> },
    FrameReady { width: u32, height: u32, frame_id: u64 },
}

/// View of a [`ControllerEvent`].
pub enum ControllerEventView {
    Navigation { status: NavigationStatus, url: Option<Seq<char>>, http_status: Option<u16> },
    Console {
        level: ConsoleLevel,
        message: Seq<char>,
        source: Option<Seq<char>>,
        line: Option<u32>,
        column: Option<u32>,
    },
    DevToolsPortOpened { port: u16, url: Option<Seq<char>> },
    FrameReady { width: u32, height: u32, frame_id: u64 },
}

impl View for ControllerEvent {
    type V = ControllerEventView;

    open spec fn view(&self) -> ControllerEventView {
        match *self {
            ControllerEvent::Navigation { status, url, http_status } => {
                ControllerEventView::Navigation { status, url: opt_view(url), http_status }
            },
            ControllerEvent::Console { level, message, source, line, column } => {
                ControllerEventView::Console {
                    level,
                    message: message@,
                    source: opt_view(source),
                    line,
                    column,
                }
            },
            ControllerEvent::DevToolsPortOpened { port, url } => {
                ControllerEventView::DevToolsPortOpened { port, url: opt_view(url) }
            },
            ControllerEvent::FrameReady { width, height, frame_id } => {
                ControllerEventView::FrameReady { width, height, frame_id }
            },
        }
    }
}

#[derive(Debug, Clone, Copy, PartialEq, Eq, Structural)]
pub enum NavigationStatus {
    Started,
    Committed,
    Finished,
    Failed,
}

#[derive(Debug, Clone, Copy, PartialEq, Eq, Structural)]
pub enum ConsoleLevel {
    Debug,
    Info,
    Warn,
    Error,
}

/// What a handshake settled.
#[derive(Debug, Clone, Copy, PartialEq, Eq, Structural)]
pub struct ControllerCapabilities {
    pub fd_passing: bool,
    pub zero_copy_frames: bool,
    pub compressed_frames: bool,
}

impl Default for ControllerCapabilities {
    fn default() -> (c: Self)
        ensures
            c == (ControllerCapabilities {
                fd_passing: false,
                zero_copy_frames: false,
                compressed_frames: false,
            }),
    {
        ControllerCapabilities {
            fd_passing: false,
            zero_copy_frames: false,
            compressed_frames: false,
        }
    }
}

/// A call of a controller, by the values that it is given.
pub enum ControllerCall {
    Initialize(ConfigView),
    BindSurface,
    Load(Seq<char>),
    EvalScript(Seq<char>),
    Resize(PhysicalSize),
    RequestDraw,
    Draw,
    SendInput,
    SetVisibility(bool),
    Focus,
    Shutdown,
}

/// The state of a controller that runs in this process.
pub struct ControllerState {
    pub initialized: bool,
    pub surface_bound: bool,
    pub alive: bool,
    pub visible: bool,
    pub last_url: Option<Seq<char>>,
    pub last_script: Option<Seq<char>>,
    pub last_size: Option<PhysicalSize>,
    pub input_events: usize,
    pub draws_requested: usize,
    pub draws_performed: usize,
    pub config: Option<ConfigView>,
}

/// One more, modulo the machine word.
pub open spec fn counted(n: usize) -> usize {
    if n < usize::MAX {
        (n + 1) as usize
    } else {
        0
    }
}

/// The error of a call that needs a controller which is ready, if it is not: initialization is
/// looked at first, then the surface, then whether the controller is alive.
pub open spec fn not_ready(initialized: bool, bound: bool, alive: bool) -> Option<ErrorView> {
    if !initialized {
        Some(ErrorView::NotInitialized("call initialize() before using the controller"@))
    } else if !bound {
        Some(ErrorView::SurfaceNotBound)
    } else if !alive {
        Some(ErrorView::InvalidState("controller not alive"@))
    } else {
        None
    }
}

/// The error of a call before initialization.
pub open spec fn not_initialized(initialized: bool) -> Option<ErrorView> {
    if initialized {
        None
    } else {
        Some(ErrorView::NotInitialized("call initialize() before using the controller"@))
    }
}

impl ControllerState {
    /// The state of a new controller.
    pub open spec fn fresh() -> ControllerState {
        ControllerState {
            initialized: false,
            surface_bound: false,
            alive: false,
            visible: false,
            last_url: None,
            last_script: None,
            last_size: None,
            input_events: 0,
            draws_requested: 0,
            draws_performed: 0,
            config: None,
        }
    }

    /// The error that a call meets in this state; `None` if it succeeds.
    pub open spec fn verdict(self, call: ControllerCall) -> Option<ErrorView> {
        match call {
            ControllerCall::Initialize(_) => if self.initialized {
                Some(ErrorView::InvalidState("initialize() called more than once"@))
            } else {
                None
            },
            ControllerCall::BindSurface => if !self.initialized {
                not_initialized(self.initialized)
            } else if self.surface_bound {
                Some(ErrorView::InvalidState("bind_surface() called more than once"@))
            } else {
                None
            },
            ControllerCall::Shutdown => not_initialized(self.initialized),
            _ => not_ready(self.initialized, self.surface_bound, self.alive),
        }
    }

    /// The state after a call; a call that fails changes nothing.
    pub open spec fn after(self, call: ControllerCall) -> ControllerState {
        if self.verdict(call) is Some {
            self
        } else {
            match call {
                ControllerCall::Initialize(config) => ControllerState {
                    config: Some(config),
                    initialized: true,
                    alive: true,
                    ..self
                },
                ControllerCall::BindSurface => ControllerState { surface_bound: true, ..self },
                ControllerCall::Load(url) => ControllerState { last_url: Some(url), ..self },
                ControllerCall::EvalScript(source) => ControllerState {
                    last_script: Some(source),
                    ..self
                },
                ControllerCall::Resize(size) => ControllerState { last_size: Some(size), ..self },
                ControllerCall::RequestDraw => ControllerState {
                    draws_requested: counted(self.draws_requested),
                    ..self
                },
                ControllerCall::Draw => ControllerState {
                    draws_performed: counted(self.draws_performed),
                    ..self
                },
                ControllerCall::SendInput => ControllerState {
                    input_events: counted(self.input_events),
                    ..self
                },
                ControllerCall::SetVisibility(visible) => ControllerState { visible, ..self },
                ControllerCall::Focus => self,
                ControllerCall::Shutdown => ControllerState { alive: false, ..self },
            }
        }
    }

    /// The state after a list of calls.
    pub open spec fn after_all(self, calls: Seq<ControllerCall>) -> ControllerState
        decreases calls.len(),
    {
        if calls.len() == 0 {
            self
        } else {
            self.after(calls.first()).after_all(calls.drop_first())
        }
    }
}

/// A controller is of use only between binding its surface and shutting down: in every other state
/// every call that works on the page is refused and changes nothing.
pub proof fn use_needs_readiness(s: ControllerState, call: ControllerCall)
    requires
        !(s.initialized && s.surface_bound && s.alive),
        !(call is Initialize),
        !(call is BindSurface),
        !(call is Shutdown),
    ensures
        s.verdict(call) is Some,
        s.after(call) == s,
{
}

/// Initialization, binding and one use, in this order, succeed on a new controller.
pub proof fn documented_order_succeeds(config: ConfigView, call: ControllerCall)
    requires
        !(call is Initialize),
        !(call is BindSurface),
    ensures
        ({
            let s0 = ControllerState::fresh();
            let s1 = s0.after(ControllerCall::Initialize(config));
            let s2 = s1.after(ControllerCall::BindSurface);
            &&& s0.verdict(ControllerCall::Initialize(config)) is None
            &&& s1.verdict(ControllerCall::BindSurface) is None
            &&& s2.verdict(call) is None
        }),
{
}

/// Initialization and binding succeed at most once, whatever happens in between.
pub proof fn setup_happens_once(s: ControllerState, calls: Seq<ControllerCall>, config: ConfigView)
    ensures
        s.initialized ==> s.after_all(calls).verdict(ControllerCall::Initialize(config)) is Some,
        s.surface_bound ==> s.after_all(calls).verdict(ControllerCall::BindSurface) is Some,
    decreases calls.len(),
{
    if calls.len() > 0 {
        setup_happens_once(s.after(calls.first()), calls.drop_first(), config);
    }
}

/// A controller that was shut down stays dead, whatever is called afterwards.
pub proof fn shutdown_is_final(s: ControllerState, calls: Seq<ControllerCall>)
    requires
        s.initialized,
    ensures
        !s.after(ControllerCall::Shutdown).after_all(calls).alive,
        s.after(ControllerCall::Shutdown).after_all(calls).initialized,
{
    dead_stays_dead(s.after(ControllerCall::Shutdown), calls);
}

proof fn dead_stays_dead(s: ControllerState, calls: Seq<ControllerCall>)
    requires
        s.initialized,
        !s.alive,
    ensures
        !s.after_all(calls).alive,
        s.after_all(calls).initialized,
    decreases calls.len(),
{
    if calls.len() > 0 {
        dead_stays_dead(s.after(calls.first()), calls.drop_first());
    }
}

/// What every controller offers.
pub trait WebviewController: Sized {
    /// A receiver of events.
    type Sink;

    /// Whether `call`, made in state `pre`, may end in state `post`, with the given error if any.
    spec fn step(
        pre: Self,
        call: ControllerCall,
        post: Self,
        error: Option<ErrorView>,
    ) -> bool;

    /// Whether the receiver of events takes what `call` leads to.
    spec fn prepared(&self, call: ControllerCall) -> bool;

    /// Whether installing `sink` in state `pre` may end in state `post`, with the given error if
    /// any.
    spec fn sink_step(
        pre: Self,
        sink: Self::Sink,
        post: Self,
        error: Option<ErrorView>,
    ) -> bool;

    /// What was settled in a handshake, if there was one.
    spec fn settled(&self) -> Option<ControllerCapabilities>;

    /// The invariant of a controller.
    spec fn wf(&self) -> bool;

    /// Whether the controller is operational.
    spec fn lives(&self) -> bool;

    /// Sets the controller up; to be called once, first.
    fn initialize(&mut self, config: ControllerConfig) -> (r: Result<(), ControllerError>)
        requires
            old(self).wf(),
            old(self).prepared(ControllerCall::Initialize(config@)),
        ensures
            final(self).wf(),
            Self::step(
                *old(self),
                ControllerCall::Initialize(config@),
                *final(self),
                failure(r),
            ),
    ;

    /// Binds the controller to a surface; to be called once.
    fn bind_surface(&mut self, handles: NativeSurfaceHandles) -> (r: Result<(), ControllerError>)
        requires
            old(self).wf(),
            old(self).prepared(ControllerCall::BindSurface),
        ensures
            final(self).wf(),
            Self::step(*old(self), ControllerCall::BindSurface, *final(self), failure(r)),
    ;

    /// Navigates to a URL or a resource.
    fn load(&mut self, url_or_resource: &str) -> (r: Result<(), ControllerError>)
        requires
            old(self).wf(),
            old(self).prepared(ControllerCall::Load(url_or_resource@)),
        ensures
            final(self).wf(),
            Self::step(*old(self), ControllerCall::Load(url_or_resource@), *final(self), failure(r)),
    ;

    /// Evaluates a script in the page.
    fn eval_script(&mut self, source: &str) -> (r: Result<(), ControllerError>)
        requires
            old(self).wf(),
            old(self).prepared(ControllerCall::EvalScript(source@)),
        ensures
            final(self).wf(),
            Self::step(*old(self), ControllerCall::EvalScript(source@), *final(self), failure(r)),
    ;

    /// Reports a new size.
    fn resize(&mut self, size: PhysicalSize) -> (r: Result<(), ControllerError>)
        requires
            old(self).wf(),
            old(self).prepared(ControllerCall::Resize(size)),
        ensures
            final(self).wf(),
            Self::step(*old(self), ControllerCall::Resize(size), *final(self), failure(r)),
    ;

    /// Asks for a draw on the next frame.
    fn request_draw(&mut self) -> (r: Result<(), ControllerError>)
        requires
            old(self).wf(),
            old(self).prepared(ControllerCall::RequestDraw),
        ensures
            final(self).wf(),
            Self::step(*old(self), ControllerCall::RequestDraw, *final(self), failure(r)),
    ;

    /// Draws at once.
    fn draw(&mut self) -> (r: Result<(), ControllerError>)
        requires
            old(self).wf(),
            old(self).prepared(ControllerCall::Draw),
        ensures
            final(self).wf(),
            Self::step(*old(self), ControllerCall::Draw, *final(self), failure(r)),
    ;

    /// Forwards an input event.
    fn send_input(&mut self, event: InputEvent) -> (r: Result<(), ControllerError>)
        requires
            old(self).wf(),
            old(self).prepared(ControllerCall::SendInput),
        ensures
            final(self).wf(),
            Self::step(*old(self), ControllerCall::SendInput, *final(self), failure(r)),
    ;

    /// Shows or hides the web view.
    fn set_visibility(&mut self, visible: bool) -> (r: Result<(), ControllerError>)
        requires
            old(self).wf(),
            old(self).prepared(ControllerCall::SetVisibility(visible)),
        ensures
            final(self).wf(),
            Self::step(*old(self), ControllerCall::SetVisibility(visible), *final(self), failure(r)),
    ;

    /// Asks for input focus.
    fn focus(&mut self) -> (r: Result<(), ControllerError>)
        requires
            old(self).wf(),
            old(self).prepared(ControllerCall::Focus),
        ensures
            final(self).wf(),
            Self::step(*old(self), ControllerCall::Focus, *final(self), failure(r)),
    ;

    /// Installs a receiver of events; a controller without events refuses it.
    fn set_event_sink(&mut self, sink: Self::Sink) -> (r: Result<(), ControllerError>)
        requires
            old(self).wf(),
        ensures
            final(self).wf(),
            Self::sink_step(*old(self), sink, *final(self), failure(r)),
    ;

    /// What was settled in a handshake, if there was one.
    fn capabilities(&self) -> (c: Option<ControllerCapabilities>)
        requires
            self.wf(),
        ensures
            c == self.settled(),
    ;

    /// Whether the controller is operational.
    fn is_alive(&self) -> (b: bool)
        requires
            self.wf(),
        ensures
            b == self.lives(),
    ;

    /// Shuts the controller down.
    fn shutdown(&mut self) -> (r: Result<(), ControllerError>)
        requires
            old(self).wf(),
            old(self).prepared(ControllerCall::Shutdown),
        ensures
            final(self).wf(),
            Self::step(*old(self), ControllerCall::Shutdown, *final(self), failure(r)),
    ;
}

/// The bookkeeping of a controller that runs in this process.
#[derive(Debug)]
pub struct ControllerCore {
    pub initialized: bool,
    pub surface_bound: bool,
    pub alive: bool,
    pub visible: bool,
    pub last_url: Option<String>,
    pub last_script: Option<String>,
    pub last_size: Option<PhysicalSize>,
    pub input_events: usize,
    pub draws_requested: usize,
    pub draws_performed: usize,
    pub config: Option<ControllerConfig>,
}

/// The view of an optional configuration.
pub open spec fn opt_config(c: Option<ControllerConfig>) -> Option<ConfigView> {
    match c {
        Some(c) => Some(c@),
        None => None,
    }
}

impl View for ControllerCore {
    type V = ControllerState;

    open spec fn view(&self) -> ControllerState {
        ControllerState {
            initialized: self.initialized,
            surface_bound: self.surface_bound,
            alive: self.alive,
            visible: self.visible,
            last_url: opt_view(self.last_url),
            last_script: opt_view(self.last_script),
            last_size: self.last_size,
            input_events: self.input_events,
            draws_requested: self.draws_requested,
            draws_performed: self.draws_performed,
            config: opt_config(self.config),
        }
    }
}

/// The first call of a controller has to initialize it.
pub fn ensure_initialized(initialized: bool) -> (r: Result<(), ControllerError>)
    ensures
        failure(r) == not_initialized(initialized),
{
    if !initialized {
        return Err(
            ControllerError::NotInitialized("call initialize() before using the controller"),
        );
    }
    Ok(())
}

/// Use of a page needs an initialized, bound and live controller.
pub fn ensure_ready(initialized: bool, bound: bool, alive: bool) -> (r: Result<
    (),
    ControllerError,
>)
    ensures
        failure(r) == not_ready(initialized, bound, alive),
{
    ensure_initialized(initialized)?;
    if !bound {
        return Err(ControllerError::SurfaceNotBound);
    }
    if !alive {
        return Err(ControllerError::InvalidState("controller not alive"));
    }
    Ok(())
}

impl ControllerCore {
    /// The bookkeeping of a new controller.
    pub fn new() -> (c: Self)
        ensures
            c@ == ControllerState::fresh(),
    {
        ControllerCore {
            initialized: false,
            surface_bound: false,
            alive: false,
            visible: false,
            last_url: None,
            last_script: None,
            last_size: None,
            input_events: 0,
            draws_requested: 0,
            draws_performed: 0,
            config: None,
        }
    }

    fn ready(&self) -> (r: Result<(), ControllerError>)
        ensures
            failure(r) == not_ready(self.initialized, self.surface_bound, self.alive),
    {
        ensure_ready(self.initialized, self.surface_bound, self.alive)
    }

    /// Records the configuration; succeeds once.
    pub fn initialize(&mut self, config: ControllerConfig) -> (r: Result<(), ControllerError>)
        ensures
            failure(r) == old(self)@.verdict(ControllerCall::Initialize(config@)),
            final(self)@ == old(self)@.after(ControllerCall::Initialize(config@)),
    {
        if self.initialized {
            return Err(ControllerError::InvalidState("initialize() called more than once"));
        }
        self.config = Some(config);
        self.initialized = true;
        self.alive = true;
        Ok(())
    }

    /// Records that the surface is bound; succeeds once.
    pub fn bind_surface(&mut self) -> (r: Result<(), ControllerError>)
        ensures
            failure(r) == old(self)@.verdict(ControllerCall::BindSurface),
            final(self)@ == old(self)@.after(ControllerCall::BindSurface),
    {
        ensure_initialized(self.initialized)?;
        if self.surface_bound {
            return Err(ControllerError::InvalidState("bind_surface() called more than once"));
        }
        self.surface_bound = true;
        Ok(())
    }

    /// Records a URL.
    pub fn load(&mut self, url_or_resource: &str) -> (r: Result<(), ControllerError>)
        ensures
            failure(r) == old(self)@.verdict(ControllerCall::Load(url_or_resource@)),
            final(self)@ == old(self)@.after(ControllerCall::Load(url_or_resource@)),
    {
        self.ready()?;
        self.last_url = Some(url_or_resource.to_owned());
        Ok(())
    }

    /// Records a script.
    pub fn eval_script(&mut self, source: &str) -> (r: Result<(), ControllerError>)
        ensures
            failure(r) == old(self)@.verdict(ControllerCall::EvalScript(source@)),
            final(self)@ == old(self)@.after(ControllerCall::EvalScript(source@)),
    {
        self.ready()?;
        self.last_script = Some(source.to_owned());
        Ok(())
    }

    /// Records a size.
    pub fn resize(&mut self, size: PhysicalSize) -> (r: Result<(), ControllerError>)
        ensures
            failure(r) == old(self)@.verdict(ControllerCall::Resize(size)),
            final(self)@ == old(self)@.after(ControllerCall::Resize(size)),
    {
        self.ready()?;
        self.last_size = Some(size);
        Ok(())
    }

    /// Counts a requested draw.
    pub fn request_draw(&mut self) -> (r: Result<(), ControllerError>)
        ensures
            failure(r) == old(self)@.verdict(ControllerCall::RequestDraw),
            final(self)@ == old(self)@.after(ControllerCall::RequestDraw),
    {
        self.ready()?;
        self.draws_requested = self.draws_requested.wrapping_add(1);
        Ok(())
    }

    /// Counts a draw.
    pub fn draw(&mut self) -> (r: Result<(), ControllerError>)
        ensures
            failure(r) == old(self)@.verdict(ControllerCall::Draw),
            final(self)@ == old(self)@.after(ControllerCall::Draw),
    {
        self.ready()?;
        self.draws_performed = self.draws_performed.wrapping_add(1);
        Ok(())
    }

    /// Counts an input event.
    pub fn send_input(&mut self) -> (r: Result<(), ControllerError>)
        ensures
            failure(r) == old(self)@.verdict(ControllerCall::SendInput),
            final(self)@ == old(self)@.after(ControllerCall::SendInput),
    {
        self.ready()?;
        self.input_events = self.input_events.wrapping_add(1);
        Ok(())
    }

    /// Records the visibility.
    pub fn set_visibility(&mut self, visible: bool) -> (r: Result<(), ControllerError>)
        ensures
            failure(r) == old(self)@.verdict(ControllerCall::SetVisibility(visible)),
            final(self)@ == old(self)@.after(ControllerCall::SetVisibility(visible)),
    {
        self.ready()?;
        self.visible = visible;
        Ok(())
    }

    /// Checks that focus can be asked for.
    pub fn focus(&mut self) -> (r: Result<(), ControllerError>)
        ensures
            failure(r) == old(self)@.verdict(ControllerCall::Focus),
            final(self)@ == old(self)@.after(ControllerCall::Focus),
    {
        self.ready()?;
        Ok(())
    }

    /// Ends the life of the controller.
    pub fn shutdown(&mut self) -> (r: Result<(), ControllerError>)
        ensures
            failure(r) == old(self)@.verdict(ControllerCall::Shutdown),
            final(self)@ == old(self)@.after(ControllerCall::Shutdown),
    {
        ensure_initialized(self.initialized)?;
        self.alive = false;
        Ok(())
    }
}

/// A controller without an engine: it checks the order of calls, records what it is told, and
/// reports loads and scripts to its receiver.
pub struct MockWebviewController<S> {
    pub core: ControllerCore,
    pub event_sink: Option<S>,
    /// What was reported.
    pub reports: CallLog<ControllerEventView>,
}

/// The event that a successful call of the mock controller reports, if any.
pub open spec fn mock_event(call: ControllerCall) -> Option<ControllerEventView> {
    match call {
        ControllerCall::Load(url) => Some(
            ControllerEventView::Navigation {
                status: NavigationStatus::Committed,
                url: Some(url),
                http_status: Some(200),
            },
        ),
        ControllerCall::EvalScript(_) => Some(
            ControllerEventView::Console {
                level: ConsoleLevel::Debug,
                message: "eval_script executed"@,
                source: Some("mock"@),
                line: None,
                column: None,
            },
        ),
        _ => None,
    }
}

impl ControllerState {
    /// The event that a call of the mock controller reports in this state, if any: a call that
    /// fails reports nothing.
    pub open spec fn mock_report(self, call: ControllerCall) -> Option<ControllerEventView> {
        if self.verdict(call) is Some {
            None
        } else {
            mock_event(call)
        }
    }
}

/// A call of the mock controller that fails reports nothing and changes nothing.
pub proof fn failed_call_reports_nothing(s: ControllerState, call: ControllerCall)
    requires
        s.verdict(call) is Some,
    ensures
        s.mock_report(call) is None,
        s.after(call) == s,
{
}

/// A receiver takes every event of the given view.
pub open spec fn takes_event<S: Sink<ControllerEvent>>(sink: S, e: ControllerEventView) -> bool {
    forall|event: ControllerEvent| event@ == e ==> #[trigger] sink.ready(event)
}

/// The receiver has been called with an event of the given view.
pub open spec fn reported<S: Sink<ControllerEvent>>(sink: S, e: ControllerEventView) -> bool {
    exists|event: ControllerEvent| #[trigger] event@ == e && sink.told(event)
}

impl<S: Sink<ControllerEvent>> MockWebviewController<S> {
    /// A new controller without a receiver.
    pub fn new() -> (c: Self)
        ensures
            c.wf(),
            c.core@ == ControllerState::fresh(),
            c.event_sink is None,
            c.reports@ == Seq::<ControllerEventView>::empty(),
    {
        MockWebviewController {
            core: ControllerCore::new(),
            event_sink: None,
            reports: CallLog::new(),
        }
    }

    /// How many input events were taken.
    pub fn input_event_count(&self) -> (n: usize)
        ensures
            n == self.core@.input_events,
    {
        self.core.input_events
    }

    /// How many draws were requested.
    pub fn draws_requested(&self) -> (n: usize)
        ensures
            n == self.core@.draws_requested,
    {
        self.core.draws_requested
    }

    /// How many draws were made.
    pub fn draws_performed(&self) -> (n: usize)
        ensures
            n == self.core@.draws_performed,
    {
        self.core.draws_performed
    }

    /// The URL loaded last.
    pub fn last_url(&self) -> (u: Option<&str>)
        ensures
            opt_str_view(u) == self.core@.last_url,
    {
        match &self.core.last_url {
            Some(s) => Some(s.as_str()),
            None => None,
        }
    }

    /// The script evaluated last.
    pub fn last_script(&self) -> (u: Option<&str>)
        ensures
            opt_str_view(u) == self.core@.last_script,
    {
        match &self.core.last_script {
            Some(s) => Some(s.as_str()),
            None => None,
        }
    }

    /// The size reported last.
    pub fn last_size(&self) -> (s: Option<PhysicalSize>)
        ensures
            s == self.core@.last_size,
    {
        self.core.last_size
    }

    /// The configuration.
    pub fn config(&self) -> (c: Option<&ControllerConfig>)
        ensures
            c is Some == self.core@.config is Some,
            c is Some ==> Some(c->0@) == self.core@.config,
    {
        self.core.config.as_ref()
    }

    fn report(&mut self, event: ControllerEvent)
        requires
            old(self).event_sink is Some ==> takes_event(old(self).event_sink->0, event@),
        ensures
            final(self).core == old(self).core,
            final(self).event_sink == old(self).event_sink,
            old(self).event_sink is Some ==> reported(old(self).event_sink->0, event@),
            final(self).reports@ == (if old(self).event_sink is Some {
                old(self).reports@.push(event@)
            } else {
                old(self).reports@
            }),
    {
        match &self.event_sink {
            Some(sink) => {
                sink.hand(event, &mut self.reports, Ghost(event@));
            },
            None => {},
        }
    }
}

/// The view of an optional text.
pub open spec fn opt_str_view(o: Option<&str>) -> Option<Seq<char>> {
    match o {
        Some(s) => Some(s@),
        None => None,
    }
}

impl<S: Sink<ControllerEvent>> WebviewController for MockWebviewController<S> {
    type Sink = S;

    open spec fn step(
        pre: Self,
        call: ControllerCall,
        post: Self,
        error: Option<ErrorView>,
    ) -> bool {
        &&& error == pre.core@.verdict(call)
        &&& post.core@ == pre.core@.after(call)
        &&& post.event_sink == pre.event_sink
        &&& pre.event_sink is Some && pre.core@.mock_report(call) is Some ==> reported(
            pre.event_sink->0,
            pre.core@.mock_report(call)->0,
        )
        &&& post.reports@ == (if pre.event_sink is Some && pre.core@.mock_report(call) is Some {
            pre.reports@.push(pre.core@.mock_report(call)->0)
        } else {
            pre.reports@
        })
    }

    open spec fn prepared(&self, call: ControllerCall) -> bool {
        self.event_sink is Some && self.core@.mock_report(call) is Some ==> takes_event(
            self.event_sink->0,
            self.core@.mock_report(call)->0,
        )
    }

    open spec fn sink_step(pre: Self, sink: S, post: Self, error: Option<ErrorView>) -> bool {
        error is None && post.core == pre.core && post.event_sink == Some(sink) && post.reports
            == pre.reports
    }

    open spec fn settled(&self) -> Option<ControllerCapabilities> {
        None
    }

    open spec fn wf(&self) -> bool {
        true
    }

    open spec fn lives(&self) -> bool {
        self.core@.alive
    }

    fn initialize(&mut self, config: ControllerConfig) -> (r: Result<(), ControllerError>) {
        self.core.initialize(config)
    }

    fn bind_surface(&mut self, handles: NativeSurfaceHandles) -> (r: Result<(), ControllerError>) {
        self.core.bind_surface()
    }

    fn load(&mut self, url_or_resource: &str) -> (r: Result<(), ControllerError>) {
        self.core.load(url_or_resource)?;
        self.report(
            ControllerEvent::Navigation {
                status: NavigationStatus::Committed,
                url: Some(url_or_resource.to_owned()),
                http_status: Some(200),
            },
        );
        Ok(())
    }

    fn eval_script(&mut self, source: &str) -> (r: Result<(), ControllerError>) {
        self.core.eval_script(source)?;
        self.report(
            ControllerEvent::Console {
                level: ConsoleLevel::Debug,
                message: "eval_script executed".to_owned(),
                source: Some("mock".to_owned()),
                line: None,
                column: None,
            },
        );
        Ok(())
    }

    fn resize(&mut self, size: PhysicalSize) -> (r: Result<(), ControllerError>) {
        self.core.resize(size)
    }

    fn request_draw(&mut self) -> (r: Result<(), ControllerError>) {
        self.core.request_draw()
    }

    fn draw(&mut self) -> (r: Result<(), ControllerError>) {
        self.core.draw()
    }

    fn send_input(&mut self, event: InputEvent) -> (r: Result<(), ControllerError>) {
        self.core.send_input()
    }

    fn set_visibility(&mut self, visible: bool) -> (r: Result<(), ControllerError>) {
        self.core.set_visibility(visible)
    }

    fn focus(&mut self) -> (r: Result<(), ControllerError>) {
        self.core.focus()
    }

    fn set_event_sink(&mut self, sink: S) -> (r: Result<(), ControllerError>) {
        self.event_sink = Some(sink);
        Ok(())
    }

    fn capabilities(&self) -> (c: Option<ControllerCapabilities>) {
        None
    }

    fn is_alive(&self) -> (b: bool) {
        self.core.alive
    }

    fn shutdown(&mut self) -> (r: Result<(), ControllerError>) {
        self.core.shutdown()
    }
}

} // verus!
