//! The Servo engine: an engine behind a worker, and the stand-in for builds without Servo.
use vstd::prelude::*;
use crate::calls::{CallLog, Function};
use crate::engine::{
    at_least_one, bound_size, choose_devtools, devtools_choice, one_or_more, size_for_surface,
    DemoEngine, DemoState, Engine, EngineCall, EngineCapabilities, EngineCapabilitiesView,
    EngineError, EngineFrame, EngineFrameView, EngineInit, EngineReply,
};
use crate::ipc_protocol::{CompressedFormat, IpcInputEvent, Real32, SurfaceDescriptor};
use crate::text::{copy_all, copy_opt, opt_view, views};

verus! {

/// A build without Servo draws with the demonstration engine.
pub struct ServoEngine {
    pub inner: DemoEngine,
}

impl ServoEngine {
    /// A new engine.
    pub fn new() -> (e: Self)
        ensures
            e.inner@ == DemoState::fresh(false),
    {
        ServoEngine { inner: DemoEngine::new() }
    }
}

impl Engine for ServoEngine {
    open spec fn step(pre: Self, call: EngineCall, post: Self, reply: EngineReply) -> bool {
        DemoEngine::step(pre.inner, call, post.inner, reply)
    }

    open spec fn wf(&self) -> bool {
        self.inner.wf()
    }

    open spec fn can_draw(&self) -> bool {
        self.inner.can_draw()
    }

    fn drawable(&self) -> (b: bool) {
        self.inner.drawable()
    }

    fn init(&mut self, init: EngineInit) -> (r: Result<EngineCapabilities, EngineError>) {
        self.inner.init(init)
    }

    fn bind_surface(&mut self, surface: &SurfaceDescriptor) -> (r: Result<(), EngineError>) {
        self.inner.bind_surface(surface)
    }

    fn load(&mut self, url_or_data: &str) -> (r: Result<(), EngineError>) {
        self.inner.load(url_or_data)
    }

    fn eval_script(&mut self, source: &str) -> (r: Result<(), EngineError>) {
        self.inner.eval_script(source)
    }

    fn resize(&mut self, width: u32, height: u32) -> (r: Result<(), EngineError>) {
        self.inner.resize(width, height)
    }

    fn input_events(&mut self, events: &Vec<IpcInputEvent>) -> (r: Result<(), EngineError>) {
        self.inner.input_events(events)
    }

    fn request_draw(&mut self) -> (r: Result<Option<EngineFrame>, EngineError>) {
        self.inner.request_draw()
    }

    fn draw_now(&mut self) -> (r: Result<Option<EngineFrame>, EngineError>) {
        self.inner.draw_now()
    }

    fn open_devtools(&mut self, requested: Option<u16>) -> (r: Result<Option<u16>, EngineError>) {
        self.inner.open_devtools(requested)
    }

    fn shutdown(&mut self) -> (r: Result<(), EngineError>) {
        self.inner.shutdown()
    }
}

/// `url::ParseError`, why a text is no URL; opaque here.
#[verifier::external_type_specification]
#[verifier::external_body]
pub struct ExParseError(url::ParseError);

/// The normalized text of what `Url::parse` makes of a text; `None` where it refuses it.
pub uninterp spec fn url_parse(s: Seq<char>) -> Option<Seq<char>>;

/// `Url::parse`; the text of the URL that it returns is called [`url_parse`].
#[verifier::external_body]
fn parse_url(s: &str) -> (r: Result<String, url::ParseError>)
    ensures
        match url_parse(s@) {
            Some(u) => r is Ok && r->Ok_0@ == u,
            None => r is Err,
        },
{
    url::Url::parse(s).map(String::from)
}

/// The URL that a text leads to: what it is parsed as, else the blank page.
pub open spec fn target_of(parsed: Option<Seq<char>>) -> Seq<char> {
    match parsed {
        Some(u) => u,
        None => "about:blank"@,
    }
}

/// The URL to load for what was parsed.
pub fn load_target(parsed: Option<String>) -> (r: String)
    ensures
        r@ == target_of(opt_view(parsed)),
{
    match parsed {
        Some(u) => u,
        None => "about:blank".to_owned(),
    }
}

/// The URL to load for a text.
pub fn normalize_url(s: &str) -> (r: String)
    ensures
        r@ == target_of(url_parse(s@)),
{
    match parse_url(s) {
        Ok(u) => load_target(Some(u)),
        Err(_) => load_target(None),
    }
}

/// A scale factor, if it is finite and positive, else one.
pub open spec fn usable_scale(s: Real32) -> Real32 {
    if 0 < s.bits < 0x7F80_0000 {
        s
    } else {
        Real32 { bits: 0x3F80_0000 }
    }
}

/// Makes a scale factor usable.
pub fn sanitize_scale(s: Real32) -> (r: Real32)
    ensures
        r == usable_scale(s),
{
    if 0 < s.bits && s.bits < 0x7F80_0000 {
        s
    } else {
        Real32 { bits: 0x3F80_0000 }
    }
}

/// What the worker is asked.
#[derive(Debug)]
pub enum WorkerCommand {
    Init {
        width: u32,
        height: u32,
        scale_factor: Real32,
        resources_dir: Option<String>,
        user_agent: Option<String>,
        init_scripts: Vec<String>,
        devtools_port: Option<u16>,
    },
    Load { url: String },
    Resize { width: u32, height: u32 },
    EvalScript { source: String },
    DrawNow,
    Shutdown,
}

/// View of a [`WorkerCommand`].
pub enum WorkerCommandView {
    Init {
        width: u32,
        height: u32,
        scale_factor: Real32,
        resources_dir: Option<Seq<char>>,
        user_agent: Option<Seq<char>>,
        init_scripts: Seq<Seq<char>>,
        devtools_port: Option<u16>,
    },
    Load { url: Seq<char> },
    Resize { width: u32, height: u32 },
    EvalScript { source: Seq<char> },
    DrawNow,
    Shutdown,
}

impl View for WorkerCommand {
    type V = WorkerCommandView;

    open spec fn view(&self) -> WorkerCommandView {
        match *self {
            WorkerCommand::Init {
                width,
                height,
                scale_factor,
                resources_dir,
                user_agent,
                init_scripts,
                devtools_port,
            } => WorkerCommandView::Init {
                width,
                height,
                scale_factor,
                resources_dir: opt_view(resources_dir),
                user_agent: opt_view(user_agent),
                init_scripts: views(init_scripts@),
                devtools_port,
            },
            WorkerCommand::Load { url } => WorkerCommandView::Load { url: url@ },
            WorkerCommand::Resize { width, height } => WorkerCommandView::Resize { width, height },
            WorkerCommand::EvalScript { source } => WorkerCommandView::EvalScript {
                source: source@,
            },
            WorkerCommand::DrawNow => WorkerCommandView::DrawNow,
            WorkerCommand::Shutdown => WorkerCommandView::Shutdown,
        }
    }
}

/// What the worker answers.
#[derive(Debug)]
pub enum WorkerReply {
    Done,
    /// A PNG image.
    Frame { width: u32, height: u32, png: Vec<u8> },
    /// The command failed, or the worker could not be reached.
    Failed(String),
}

/// What a worker without a web view answers to a command that needs one.
pub open spec fn refusal_of(command: WorkerCommandView, has_view: bool) -> Option<Seq<char>> {
    if has_view {
        None
    } else {
        match command {
            WorkerCommandView::Load { url } => Some("Worker.load: webview not initialized"@),
            WorkerCommandView::Resize { width, height } => Some(
                "Worker.resize: webview not initialized"@,
            ),
            WorkerCommandView::DrawNow => Some("Worker.draw_now_png: webview not initialized"@),
            _ => None,
        }
    }
}

/// The answer of a worker that cannot carry a command out because it has no web view.
pub fn worker_refusal(command: &WorkerCommand, has_view: bool) -> (r: Option<WorkerReply>)
    ensures
        match refusal_of(command@, has_view) {
            Some(text) => r is Some && r->0 is Failed && r->0->Failed_0@ == text,
            None => r is None,
        },
{
    if has_view {
        return None;
    }
    match command {
        WorkerCommand::Load { url: _ } => Some(
            WorkerReply::Failed("Worker.load: webview not initialized".to_owned()),
        ),
        WorkerCommand::Resize { width: _, height: _ } => Some(
            WorkerReply::Failed("Worker.resize: webview not initialized".to_owned()),
        ),
        WorkerCommand::DrawNow => Some(
            WorkerReply::Failed("Worker.draw_now_png: webview not initialized".to_owned()),
        ),
        _ => None,
    }
}

/// The Servo engine behind a worker.  The worker is a function from commands to replies.
pub struct ServoWorkerEngine<W> {
    pub resources_dir: Option<String>,
    pub user_agent: Option<String>,
    pub init_scripts: Vec<String>,
    pub devtools_port: Option<u16>,
    pub prefer_zero_copy: bool,
    pub width: u32,
    pub height: u32,
    pub scale_factor: Real32,
    /// Whether the worker was given a command since the start or the last shutdown.
    pub started: bool,
    pub initialized: bool,
    pub worker: W,
    /// The commands that the worker was given.
    pub given: CallLog<WorkerCommandView>,
}

/// View of a [`ServoWorkerEngine`].
pub struct WorkerState {
    pub resources_dir: Option<Seq<char>>,
    pub user_agent: Option<Seq<char>>,
    pub init_scripts: Seq<Seq<char>>,
    pub devtools_port: Option<u16>,
    pub prefer_zero_copy: bool,
    pub width: u32,
    pub height: u32,
    pub scale_factor: Real32,
    pub started: bool,
    pub initialized: bool,
}

impl<W> View for ServoWorkerEngine<W> {
    type V = WorkerState;

    open spec fn view(&self) -> WorkerState {
        WorkerState {
            resources_dir: opt_view(self.resources_dir),
            user_agent: opt_view(self.user_agent),
            init_scripts: views(self.init_scripts@),
            devtools_port: self.devtools_port,
            prefer_zero_copy: self.prefer_zero_copy,
            width: self.width,
            height: self.height,
            scale_factor: self.scale_factor,
            started: self.started,
            initialized: self.initialized,
        }
    }
}

impl WorkerState {
    /// The state of a new engine.
    pub open spec fn fresh() -> WorkerState {
        WorkerState {
            resources_dir: None,
            user_agent: None,
            init_scripts: Seq::empty(),
            devtools_port: None,
            prefer_zero_copy: false,
            width: 0,
            height: 0,
            scale_factor: Real32 { bits: 0x3F80_0000 },
            started: false,
            initialized: false,
        }
    }

    /// The state once a surface is known.
    pub open spec fn bound(self, surface: SurfaceDescriptor) -> WorkerState {
        WorkerState {
            width: bound_size(surface, self.width, self.height, 800, 600).0,
            height: bound_size(surface, self.width, self.height, 800, 600).1,
            scale_factor: match surface {
                SurfaceDescriptor::Fallback { width, height, scale_factor } => scale_factor,
                _ => self.scale_factor,
            },
            ..self
        }
    }

    /// The command that sets the worker up.
    pub open spec fn init_command(self) -> WorkerCommandView {
        WorkerCommandView::Init {
            width: at_least_one(self.width),
            height: at_least_one(self.height),
            scale_factor: usable_scale(self.scale_factor),
            resources_dir: self.resources_dir,
            user_agent: self.user_agent,
            init_scripts: self.init_scripts,
            devtools_port: self.devtools_port,
        }
    }
}

/// The worker was given the command and answered `reply`.
pub open spec fn asked<W: Function<WorkerCommand, WorkerReply>>(
    worker: W,
    command: WorkerCommandView,
    reply: WorkerReply,
) -> bool {
    exists|c: WorkerCommand| c@ == command && #[trigger] worker.answered(c, reply)
}

/// Setting the worker up from state `pre` gave `post` and the error, if any.  A worker is set up
/// once; one that fails to be set up is tried again next time.
pub open spec fn set_up<W: Function<WorkerCommand, WorkerReply>>(
    worker: W,
    pre: WorkerState,
    post: WorkerState,
    error: Option<Seq<char>>,
) -> bool {
    if pre.initialized {
        post == pre && error is None
    } else {
        exists|reply: WorkerReply| #[trigger]
            asked(worker, pre.init_command(), reply) && (match reply {
                WorkerReply::Failed(e) => post == (WorkerState { started: true, ..pre }) && error
                    == Some(e@),
                _ => post == (WorkerState { started: true, initialized: true, ..pre })
                    && error is None,
            })
    }
}

/// A command that needs a worker which is set up: setting up comes first, and its failure is the
/// outcome.
pub open spec fn commanded<W: Function<WorkerCommand, WorkerReply>>(
    worker: W,
    pre: WorkerState,
    command: WorkerCommandView,
    post: WorkerState,
    reply: EngineReply,
) -> bool {
    exists|error: Option<Seq<char>>| #[trigger]
        set_up(worker, pre, post, error) && match error {
            Some(e) => reply == EngineReply::Failed(e),
            None => exists|answer: WorkerReply| #[trigger]
                asked(worker, command, answer) && reply == outcome(command, answer),
        }
}

/// The commands given once a worker is set up in state `pre`: one that sets it up, unless that has
/// been done.
pub open spec fn given_setup(pre: WorkerState, given: Seq<WorkerCommandView>) -> Seq<
    WorkerCommandView,
> {
    if pre.initialized {
        given
    } else {
        given.push(pre.init_command())
    }
}

/// The commands given once a command was carried out in state `pre`: the worker is set up first,
/// and gets the command, once, only where it is then `ready`.
pub open spec fn given_command(
    pre: WorkerState,
    given: Seq<WorkerCommandView>,
    command: WorkerCommandView,
    ready: bool,
) -> Seq<WorkerCommandView> {
    if ready {
        given_setup(pre, given).push(command)
    } else {
        given_setup(pre, given)
    }
}

/// The command that a call gives to a worker which is set up, if any.
pub open spec fn command_of(call: EngineCall) -> Option<WorkerCommandView> {
    match call {
        EngineCall::Load(url) => Some(WorkerCommandView::Load { url: target_of(url_parse(url)) }),
        EngineCall::EvalScript(source) => Some(WorkerCommandView::EvalScript { source }),
        EngineCall::Resize(w, h) => Some(
            WorkerCommandView::Resize { width: at_least_one(w), height: at_least_one(h) },
        ),
        EngineCall::RequestDraw | EngineCall::DrawNow => Some(WorkerCommandView::DrawNow),
        _ => None,
    }
}

/// The state in which the worker is set up for a call: the call's size and surface count already.
pub open spec fn prepared_for(pre: WorkerState, call: EngineCall) -> WorkerState {
    match call {
        EngineCall::BindSurface(surface) => pre.bound(surface),
        EngineCall::Resize(w, h) => WorkerState {
            width: at_least_one(w),
            height: at_least_one(h),
            ..pre
        },
        _ => pre,
    }
}

/// The commands given after a call that ends in state `post`.
pub open spec fn given_after(
    pre: WorkerState,
    given: Seq<WorkerCommandView>,
    call: EngineCall,
    post: WorkerState,
) -> Seq<WorkerCommandView> {
    match call {
        EngineCall::BindSurface(_) => given_setup(prepared_for(pre, call), given),
        EngineCall::Shutdown => if pre.started {
            given.push(WorkerCommandView::Shutdown)
        } else {
            given
        },
        _ => match command_of(call) {
            Some(command) => given_command(
                prepared_for(pre, call),
                given,
                command,
                post.initialized,
            ),
            None => given,
        },
    }
}

/// What an answer of the worker means for a command: only a draw has a frame.
pub open spec fn outcome(command: WorkerCommandView, answer: WorkerReply) -> EngineReply {
    match answer {
        WorkerReply::Failed(e) => EngineReply::Failed(e@),
        WorkerReply::Frame { width, height, png } => if command is DrawNow {
            EngineReply::Frame(
                Some(
                    EngineFrameView::CompressedImage {
                        width,
                        height,
                        format: CompressedFormat::Png,
                        data: png@,
                    },
                ),
            )
        } else {
            EngineReply::Done
        },
        WorkerReply::Done => if command is DrawNow {
            EngineReply::Frame(None)
        } else {
            EngineReply::Done
        },
    }
}

impl<W: Function<WorkerCommand, WorkerReply>> ServoWorkerEngine<W> {
    /// The worker takes every command.
    pub open spec fn worker_ready(&self) -> bool {
        forall|c: WorkerCommand| #[trigger] self.worker.ready(c)
    }

    /// A new engine over a worker.
    pub fn new(worker: W) -> (e: Self)
        ensures
            e@ == WorkerState::fresh(),
            e.worker == worker,
            e.given@ == Seq::<WorkerCommandView>::empty(),
    {
        let e = ServoWorkerEngine {
            resources_dir: None,
            user_agent: None,
            init_scripts: Vec::new(),
            devtools_port: None,
            prefer_zero_copy: false,
            width: 0,
            height: 0,
            scale_factor: Real32 { bits: 0x3F80_0000 },
            started: false,
            initialized: false,
            worker,
            given: CallLog::new(),
        };
        proof {
            assert(e@.init_scripts =~= Seq::empty());
        }
        e
    }

    fn ask(&mut self, command: WorkerCommand) -> (reply: WorkerReply)
        requires
            old(self).worker_ready(),
        ensures
            final(self)@ == old(self)@,
            final(self).worker == old(self).worker,
            final(self).given@ == old(self).given@.push(command@),
            asked(old(self).worker, command@, reply),
    {
        self.worker.ask(command, &mut self.given, Ghost(command@))
    }

    /// Sets the worker up, if that has not been done.
    pub fn init_on_worker(&mut self) -> (r: Result<(), EngineError>)
        requires
            old(self).worker_ready(),
        ensures
            final(self).worker == old(self).worker,
            set_up(
                old(self).worker,
                old(self)@,
                final(self)@,
                match r {
                    Ok(_) => None,
                    Err(e) => Some(e.msg@),
                },
            ),
            r is Ok == final(self)@.initialized,
            final(self).given@ == given_setup(old(self)@, old(self).given@),
    {
        if self.initialized {
            return Ok(());
        }
        let command = WorkerCommand::Init {
            width: one_or_more(self.width),
            height: one_or_more(self.height),
            scale_factor: sanitize_scale(self.scale_factor),
            resources_dir: copy_opt(&self.resources_dir),
            user_agent: copy_opt(&self.user_agent),
            init_scripts: copy_all(&self.init_scripts),
            devtools_port: self.devtools_port,
        };
        let ghost pre = self@;
        proof {
            assert(command@ == pre.init_command());
        }
        let reply = self.ask(command);
        self.started = true;
        proof {
            assert(asked(self.worker, pre.init_command(), reply));
        }
        match reply {
            WorkerReply::Failed(e) => Err(EngineError { msg: e }),
            _ => {
                self.initialized = true;
                Ok(())
            },
        }
    }

    fn command(&mut self, command: WorkerCommand) -> (r: Result<(), EngineError>)
        requires
            old(self).worker_ready(),
            !(command is DrawNow),
        ensures
            final(self).worker == old(self).worker,
            commanded(
                old(self).worker,
                old(self)@,
                command@,
                final(self)@,
                crate::engine::done_reply(r),
            ),
            final(self).given@ == given_command(
                old(self)@,
                old(self).given@,
                command@,
                final(self)@.initialized,
            ),
    {
        match self.init_on_worker() {
            Err(e) => Err(e),
            Ok(()) => {
                let ghost asked_for = command@;
                let answer = self.ask(command);
                proof {
                    assert(set_up(old(self).worker, old(self)@, self@, None));
                    assert(asked(self.worker, asked_for, answer));
                }
                match answer {
                    WorkerReply::Failed(e) => Err(EngineError { msg: e }),
                    _ => Ok(()),
                }
            },
        }
    }
}

impl<W: Function<WorkerCommand, WorkerReply>> Engine for ServoWorkerEngine<W> {
    open spec fn step(pre: Self, call: EngineCall, post: Self, reply: EngineReply) -> bool {
        &&& post.worker == pre.worker
        &&& post.given@ == given_after(pre@, pre.given@, call, post@)
        &&& match call {
            EngineCall::Init(init) => {
                &&& post@ == (WorkerState {
                    resources_dir: init.resources_dir,
                    user_agent: init.user_agent,
                    init_scripts: init.init_scripts,
                    devtools_port: init.devtools_port,
                    prefer_zero_copy: init.prefer_zero_copy,
                    ..pre@
                })
                &&& reply == EngineReply::Capabilities(
                    EngineCapabilitiesView {
                        fd_passing: false,
                        zero_copy_frames: false,
                        compressed_frames: true,
                        supported_compressed: seq![CompressedFormat::Png],
                    },
                )
            },
            EngineCall::BindSurface(_) => {
                exists|error: Option<Seq<char>>| #[trigger]
                    set_up(pre.worker, prepared_for(pre@, call), post@, error) && reply == (
                    match error {
                        Some(e) => EngineReply::Failed(e),
                        None => EngineReply::Done,
                    })
            },
            EngineCall::Load(_)
            | EngineCall::EvalScript(_)
            | EngineCall::Resize(_, _)
            | EngineCall::RequestDraw
            | EngineCall::DrawNow => commanded(
                pre.worker,
                prepared_for(pre@, call),
                command_of(call)->0,
                post@,
                reply,
            ),
            EngineCall::InputEvents(_) => post@ == pre@ && reply == EngineReply::Done,
            EngineCall::OpenDevtools(requested) => post@ == pre@ && reply == EngineReply::Port(
                devtools_choice(requested, pre@.devtools_port),
            ),
            EngineCall::Shutdown => {
                &&& pre@.started ==> exists|answer: WorkerReply| #[trigger]
                    asked(pre.worker, WorkerCommandView::Shutdown, answer)
                &&& post@ == (WorkerState { started: false, initialized: false, ..pre@ })
                &&& reply == EngineReply::Done
            },
        }
    }

    open spec fn wf(&self) -> bool {
        self.worker_ready()
    }

    open spec fn can_draw(&self) -> bool {
        true
    }

    fn drawable(&self) -> (b: bool) {
        true
    }

    fn init(&mut self, init: EngineInit) -> (r: Result<EngineCapabilities, EngineError>) {
        self.resources_dir = init.resources_dir;
        self.user_agent = init.user_agent;
        self.init_scripts = init.init_scripts;
        self.devtools_port = init.devtools_port;
        self.prefer_zero_copy = init.prefer_zero_copy;
        let mut supported: Vec<CompressedFormat> = Vec::new();
        supported.push(CompressedFormat::Png);
        proof {
            assert(supported@ =~= seq![CompressedFormat::Png]);
        }
        Ok(
            EngineCapabilities {
                fd_passing: false,
                zero_copy_frames: false,
                compressed_frames: true,
                supported_compressed: supported,
            },
        )
    }

    fn bind_surface(&mut self, surface: &SurfaceDescriptor) -> (r: Result<(), EngineError>) {
        let (w, h) = size_for_surface(surface, self.width, self.height, 800, 600);
        self.width = w;
        self.height = h;
        match surface {
            SurfaceDescriptor::Fallback { width: _, height: _, scale_factor } => {
                self.scale_factor = *scale_factor;
            },
            _ => {},
        }
        self.init_on_worker()
    }

    fn load(&mut self, url_or_data: &str) -> (r: Result<(), EngineError>) {
        let url = normalize_url(url_or_data);
        self.command(WorkerCommand::Load { url })
    }

    fn eval_script(&mut self, source: &str) -> (r: Result<(), EngineError>) {
        self.command(WorkerCommand::EvalScript { source: source.to_owned() })
    }

    fn resize(&mut self, width: u32, height: u32) -> (r: Result<(), EngineError>) {
        self.width = one_or_more(width);
        self.height = one_or_more(height);
        let command = WorkerCommand::Resize { width: self.width, height: self.height };
        self.command(command)
    }

    fn input_events(&mut self, events: &Vec<IpcInputEvent>) -> (r: Result<(), EngineError>) {
        Ok(())
    }

    fn request_draw(&mut self) -> (r: Result<Option<EngineFrame>, EngineError>) {
        self.draw_now()
    }

    fn draw_now(&mut self) -> (r: Result<Option<EngineFrame>, EngineError>) {
        match self.init_on_worker() {
            Err(e) => Err(e),
            Ok(()) => {
                let answer = self.ask(WorkerCommand::DrawNow);
                proof {
                    assert(set_up(old(self).worker, old(self)@, self@, None));
                    assert(asked(self.worker, WorkerCommandView::DrawNow, answer));
                }
                match answer {
                    WorkerReply::Failed(e) => Err(EngineError { msg: e }),
                    WorkerReply::Frame { width, height, png } => Ok(
                        Some(
                            EngineFrame::CompressedImage {
                                width,
                                height,
                                format: CompressedFormat::Png,
                                data: png,
                            },
                        ),
                    ),
                    WorkerReply::Done => Ok(None),
                }
            },
        }
    }

    fn open_devtools(&mut self, requested: Option<u16>) -> (r: Result<Option<u16>, EngineError>) {
        Ok(choose_devtools(requested, self.devtools_port))
    }

    fn shutdown(&mut self) -> (r: Result<(), EngineError>) {
        if self.started {
            let answer = self.ask(WorkerCommand::Shutdown);
            proof {
                assert(asked(self.worker, WorkerCommandView::Shutdown, answer));
            }
        }
        self.started = false;
        self.initialized = false;
        Ok(())
    }
}

/// The commands of a worker come in order: a command for a page comes neither first nor right after
/// a shutdown, so that every run of such commands begins with setting the worker up.
pub open spec fn in_order(given: Seq<WorkerCommandView>) -> bool {
    forall|i: int|
        0 <= i < given.len() && !((#[trigger] given[i]) is Init) && !(given[i] is Shutdown) ==> 0 < i
            && !(given[i - 1] is Shutdown)
}

impl<W> ServoWorkerEngine<W> {
    /// The worker has got its commands in order, and one that is set up was given a command since
    /// the last shutdown.
    pub open spec fn orderly(&self) -> bool {
        &&& in_order(self.given@)
        &&& self.initialized ==> self.started && self.given@.len() > 0 && !(
        self.given@.last() is Shutdown)
    }
}

/// The worker is set up first, and once: commands stay in order from call to call, what was given
/// stays given, and as long as no shutdown comes in between a worker that is set up stays so and is
/// not set up again.
pub proof fn worker_is_set_up_first_and_once<W: Function<WorkerCommand, WorkerReply>>(
    pre: ServoWorkerEngine<W>,
    call: EngineCall,
    post: ServoWorkerEngine<W>,
    reply: EngineReply,
)
    requires
        ServoWorkerEngine::step(pre, call, post, reply),
        pre.orderly(),
    ensures
        post.orderly(),
        pre.given@.is_prefix_of(post.given@),
        pre@.initialized && !(call is Shutdown) ==> post@.initialized && forall|i: int|
            pre.given@.len() <= i < post.given@.len() ==> !((#[trigger] post.given@[i]) is Init),
        !pre@.initialized && !post@.initialized ==> forall|i: int|
            pre.given@.len() <= i < post.given@.len() ==> (#[trigger] post.given@[i]) is Init
                || post.given@[i] is Shutdown,
{
    let given = pre.given@;
    let now = post.given@;
    assert(now.len() >= given.len());
    assert(now.subrange(0, given.len() as int) =~= given);
    assert forall|i: int|
        0 <= i < now.len() && !((#[trigger] now[i]) is Init) && !(now[i] is Shutdown) implies 0 < i
        && !(now[i - 1] is Shutdown) by {
        if i < given.len() {
            assert(now[i] == given[i]);
            assert(i > 0 ==> now[i - 1] == given[i - 1]);
        }
    }
}

/// A new engine has given its worker nothing.
pub proof fn new_worker_engine_is_orderly<W>(e: ServoWorkerEngine<W>)
    requires
        e@ == WorkerState::fresh(),
        e.given@ == Seq::<WorkerCommandView>::empty(),
    ensures
        e.orderly(),
{
}

} // verus!
