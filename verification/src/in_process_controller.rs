//! A controller whose engine is to run in this process.
use vstd::prelude::*;
use crate::controller::{
    ControllerCall, ControllerCapabilities, ControllerConfig, ControllerCore, ControllerError,
    ControllerState, ErrorView, InputEvent, PhysicalSize, WebviewController,
};
use crate::winit_runtime::NativeSurfaceHandles;

verus! {

/// A controller for an engine in this process.  It keeps the order of calls and records what it is
/// told; it reports no events.
#[derive(Debug)]
pub struct InProcessController {
    pub core: ControllerCore,
}

impl InProcessController {
    /// A new controller.
    pub fn new() -> (c: Self)
        ensures
            c.core@ == ControllerState::fresh(),
    {
        InProcessController { core: ControllerCore::new() }
    }

    /// How many input events were taken, draws requested, and draws made.
    pub fn diagnostics(&self) -> (d: (usize, usize, usize))
        ensures
            d == (
                self.core@.input_events,
                self.core@.draws_requested,
                self.core@.draws_performed,
            ),
    {
        (self.core.input_events, self.core.draws_requested, self.core.draws_performed)
    }
}

impl WebviewController for InProcessController {
    type Sink = ();

    open spec fn step(
        pre: Self,
        call: ControllerCall,
        post: Self,
        error: Option<ErrorView>,
    ) -> bool {
        error == pre.core@.verdict(call) && post.core@ == pre.core@.after(call)
    }

    open spec fn prepared(&self, call: ControllerCall) -> bool {
        true
    }

    open spec fn sink_step(pre: Self, sink: (), post: Self, error: Option<ErrorView>) -> bool {
        post == pre && error == Some(ErrorView::Unsupported("event sink not supported"@))
    }

    open spec fn settled(&self) -> Option<ControllerCapabilities> {
        None
    }

    open spec fn wf(&self) -> bool {
        true
    }

    open spec fn lives(&self) -> bool {
        self.core@.alive
    }

    fn initialize(&mut self, config: ControllerConfig) -> (r: Result<(), ControllerError>) {
        self.core.initialize(config)
    }

    fn bind_surface(&mut self, handles: NativeSurfaceHandles) -> (r: Result<(), ControllerError>) {
        self.core.bind_surface()
    }

    fn load(&mut self, url_or_resource: &str) -> (r: Result<(), ControllerError>) {
        self.core.load(url_or_resource)
    }

    fn eval_script(&mut self, source: &str) -> (r: Result<(), ControllerError>) {
        self.core.eval_script(source)
    }

    fn resize(&mut self, size: PhysicalSize) -> (r: Result<(), ControllerError>) {
        self.core.resize(size)
    }

    fn request_draw(&mut self) -> (r: Result<(), ControllerError>) {
        self.core.request_draw()
    }

    fn draw(&mut self) -> (r: Result<(), ControllerError>) {
        self.core.draw()
    }

    fn send_input(&mut self, event: InputEvent) -> (r: Result<(), ControllerError>) {
        self.core.send_input()
    }

    fn set_visibility(&mut self, visible: bool) -> (r: Result<(), ControllerError>) {
        self.core.set_visibility(visible)
    }

    fn focus(&mut self) -> (r: Result<(), ControllerError>) {
        self.core.focus()
    }

    fn set_event_sink(&mut self, sink: ()) -> (r: Result<(), ControllerError>) {
        Err(ControllerError::Unsupported("event sink not supported"))
    }

    fn capabilities(&self) -> (c: Option<ControllerCapabilities>) {
        None
    }

    fn is_alive(&self) -> (b: bool) {
        self.core.alive
    }

    fn shutdown(&mut self) -> (r: Result<(), ControllerError>) {
        self.core.shutdown()
    }
}

} // verus!
