//! What things are before anything was done with them.
use vstd::prelude::*;
use crate::calls::{Function, Sink};
use crate::controller::{
    ControllerCapabilities, ControllerConfig, ControllerCore, ControllerEvent, ControllerMode,
    MockWebviewController,
};
use crate::dioxus_engine::DioxusEngine;
use crate::engine::{DemoEngine, EngineCapabilities, EngineError, EngineInit};
use crate::in_process_controller::InProcessController;
use crate::ipc_controller::FrameInbox;
use crate::servo_engine::{ServoEngine, ServoWorkerEngine, WorkerCommand, WorkerReply};
use crate::settings::Settings;
use crate::window_manager::{LogicalSize, WindowIds, WindowOptions};
use crate::winit_runtime::{VersoWebviewHost, WindowRegistry, WinitWindowHandle};

verus! {

/// An engine that was not set up yet has nothing configured, no size, no page and nothing counted.
pub open spec fn is_new_demo(e: DemoEngine) -> bool {
    &&& e.resources_dir is None && e.user_agent is None && e.init_scripts@.len() == 0
    &&& e.devtools_port_cfg is None && !e.prefer_zero_copy
    &&& e.width == 0 && e.height == 0 && e.stride == 0
    &&& e.last_url is None && e.next_frame_id == 0 && e.input_events == 0
}

/// New engines know nothing, and only the one that was asked to shares frames.
pub proof fn new_engines_are_blank<
    R: Fn(&Option<String>, usize) -> String,
    S: Fn(u32, u32, u8) -> u8,
    W: Function<WorkerCommand, WorkerReply>,
>(
    a: DemoEngine,
    b: DemoEngine,
    c: ServoEngine,
    render: R,
    shade: S,
    d: DioxusEngine<R, S>,
    worker: W,
    e: ServoWorkerEngine<W>,
)
    requires
        call_ensures(DemoEngine::new, (), a),
        call_ensures(DemoEngine::with_zero_copy, (), b),
        call_ensures(ServoEngine::new, (), c),
        call_ensures(DioxusEngine::<R, S>::new, (render, shade), d),
        call_ensures(ServoWorkerEngine::<W>::new, (worker,), e),
    ensures
        is_new_demo(a) && !a.zero_copy,
        is_new_demo(b) && b.zero_copy,
        is_new_demo(c.inner) && !c.inner.zero_copy,
        d.resources_dir is None && d.user_agent is None && d.init_scripts@.len() == 0,
        d.devtools_port_cfg is None && !d.prefer_zero_copy,
        d.width == 0 && d.height == 0 && d.stride == 0,
        d.last_html is None && d.next_frame_id == 0 && d.input_events == 0,
        d.render == render && d.shade == shade,
        e.resources_dir is None && e.user_agent is None && e.init_scripts@.len() == 0,
        e.devtools_port is None && !e.prefer_zero_copy,
        e.width == 0 && e.height == 0 && e.scale_factor.bits == 0x3F80_0000,
        !e.started && !e.initialized,
        e.worker == worker && e.given@.len() == 0,
{
    assert(a@.init_scripts.len() == a.init_scripts@.len());
    assert(b@.init_scripts.len() == b.init_scripts@.len());
    assert(c.inner@.init_scripts.len() == c.inner.init_scripts@.len());
    assert(d@.init_scripts.len() == d.init_scripts@.len());
    assert(e@.init_scripts.len() == e.init_scripts@.len());
}

/// A controller that nothing was asked of is neither set up nor bound nor alive nor visible, and
/// remembers and counts nothing.
pub open spec fn is_new_core(c: ControllerCore) -> bool {
    &&& !c.initialized && !c.surface_bound && !c.alive && !c.visible
    &&& c.config is None
    &&& c.last_url is None && c.last_script is None && c.last_size is None
    &&& c.input_events == 0 && c.draws_requested == 0 && c.draws_performed == 0
}

/// New controllers are alike and tell nobody.
pub proof fn new_controllers_are_blank<S: Sink<ControllerEvent>>(
    a: ControllerCore,
    b: InProcessController,
    c: MockWebviewController<S>,
    m: ControllerMode,
    caps: ControllerCapabilities,
    cfg: ControllerConfig,
)
    requires
        call_ensures(ControllerCore::new, (), a),
        call_ensures(InProcessController::new, (), b),
        call_ensures(MockWebviewController::<S>::new, (), c),
        call_ensures(ControllerMode::default, (), m),
        call_ensures(ControllerCapabilities::default, (), caps),
        call_ensures(ControllerConfig::default, (), cfg),
    ensures
        is_new_core(a) && is_new_core(b.core) && is_new_core(c.core),
        c.event_sink is None && c.reports@.len() == 0,
        m is InProcess,
        !caps.fd_passing && !caps.zero_copy_frames && !caps.compressed_frames,
        cfg.mode is InProcess && cfg.external_bin_path is None && cfg.resources_dir is None,
        cfg.devtools_port is None && cfg.user_agent is None && cfg.unix_socket_path is None,
        cfg.init_scripts@.len() == 0,
{
    assert(cfg@.init_scripts.len() == cfg.init_scripts@.len());
}

/// Nothing is configured, nothing can be done and nothing has arrived where nothing was said.
pub proof fn nothing_is_assumed(
    i: EngineInit,
    c: EngineCapabilities,
    b: FrameInbox,
    token: u64,
    s: Settings,
    o: WindowOptions,
    ids: WindowIds,
    msg: &str,
    e: EngineError,
    f: &EngineError,
    text: String,
)
    requires
        call_ensures(EngineInit::default, (), i),
        call_ensures(EngineCapabilities::default, (), c),
        call_ensures(FrameInbox::new, (), b),
        call_ensures(Settings::new, (), s),
        call_ensures(WindowOptions::default, (), o),
        call_ensures(WindowIds::new, (), ids),
        call_ensures(EngineError::new, (msg,), e),
        call_ensures(EngineError::to_text, (f,), text),
    ensures
        i.resources_dir is None && i.user_agent is None && i.devtools_port is None,
        i.init_scripts@.len() == 0 && !i.prefer_zero_copy,
        !c.fd_passing && !c.zero_copy_frames && !c.compressed_frames,
        c.supported_compressed@.len() == 0,
        !b.pending_handles@.contains_key(token) && !b.last_frame_valid
            && b.last_frame_bytes is None,
        s.verso_path is None && s.resource_directory is None && s.devtools_port is None,
        o.title@ == "Verso App"@ && o.decorations && o.resizable && !o.always_on_top,
        o.size is None && o.min_size is None && o.max_size is None && o.devtools_port is None,
        o.initialization_scripts@.len() == 0,
        ids.plain == 1 && ids.backed == 1,
        e.msg@ == msg@ && text@ == f.msg@,
{
    assert(i@.init_scripts.len() == i.init_scripts@.len());
    assert(o@.initialization_scripts.len() == o.initialization_scripts@.len());
    assert(b.held().contains_key(token) == b.pending_handles@.contains_key(token));
}

/// Handles and hosts are of the window that they were made for, a size has the sides that it was
/// made of, and a new registry has no windows.
pub proof fn handles_are_of_their_window<W, S>(
    id: u64,
    h: WinitWindowHandle,
    x: &WinitWindowHandle,
    y: u64,
    v: VersoWebviewHost,
    z: &VersoWebviewHost,
    w: WinitWindowHandle,
    width: u32,
    height: u32,
    s: LogicalSize,
    r: WindowRegistry<W, S>,
)
    requires
        call_ensures(WinitWindowHandle::new, (id,), h),
        call_ensures(WinitWindowHandle::id, (x,), y),
        call_ensures(VersoWebviewHost::new, (h,), v),
        call_ensures(VersoWebviewHost::window, (z,), w),
        call_ensures(LogicalSize::new, (width, height), s),
        call_ensures(WindowRegistry::<W, S>::new, (), r),
    ensures
        h.id == id && y == x.id && v.window.id == id && w.id == z.window.id,
        s.width == width && s.height == height,
        !r.windows@.contains_key(id) && !r.records@.contains_key(id),
{
    assert(r.subscribers().contains_key(id) == r.records@.contains_key(id));
}

} // verus!
