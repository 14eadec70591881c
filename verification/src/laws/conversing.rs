//! What holds from end to end: of what a host asks, what the server and its engine make of it, and
//! what the host sees of that.
use vstd::prelude::*;
use serde_json::Value;
use crate::controller::{ControllerError, ControllerEvent, PhysicalSize};
use crate::engine::{DemoEngine, Engine, EngineFrame};
use crate::ipc_controller::{
    finish_operation, map_event, receive, FrameInbox, Inbound, IpcController, Operation,
    SharedState, Waited,
};
use crate::ipc_protocol::{Envelope, Event, FrameDescriptor, HandleToken};
use crate::ipc_transport::OpaqueHandle;
use crate::laws::hosting::{
    event_reaches_the_host, load_asks_for_its_url, operation_succeeds_if_acknowledged,
    response_reaches_who_waits, shared_frame_is_looked_at, size_is_sent_as_given,
    started_server_is_greeted, usable,
};
use crate::laws::rendering::is_gradient;
use crate::laws::serving::{
    demo_frame_is_announced_at_its_size, every_request_is_answered,
    handshake_carries_the_configuration, shared_bitmap_is_announced,
};
use crate::laws::{same_list, same_option};
use crate::server::{
    describe_frame, finish_export, handle_request, resume_request, Export, Outgoing, Rest, Step,
};
use crate::tauri_ipc_adapter::{CommandResult, ServedCommands};

verus! {

/// The size of a frame as the engine gives it.
pub open spec fn engine_size(f: EngineFrame) -> (u32, u32) {
    match f {
        EngineFrame::SharedMemoryHandle { width, height, .. } => (width, height),
        EngineFrame::LinuxDmabuf { width, height, .. } => (width, height),
        EngineFrame::MacOsIoSurface { width, height, .. } => (width, height),
        EngineFrame::WindowsDxgiSharedHandle { width, height, .. } => (width, height),
        EngineFrame::CompressedImage { width, height, .. } => (width, height),
        EngineFrame::SharedMemoryInline { width, height, .. } => (width, height),
        EngineFrame::SharedMemoryExport { width, height, .. } => (width, height),
    }
}

/// A frame that an engine drew is seen by the host at the width and the height at which it was
/// drawn, whatever kind it is of and however it travels.
pub proof fn frame_keeps_its_size_to_the_host(
    frame: EngineFrame,
    token: HandleToken,
    d: Option<(FrameDescriptor, Vec<OpaqueHandle>)>,
    e: Event,
    r: ControllerEvent,
)
    requires
        call_ensures(describe_frame, (frame, token), d),
        d is Some,
        e is FrameReady,
        e->descriptor == (d->0).0,
        call_ensures(map_event, (e,), r),
    ensures
        r is FrameReady,
        r->frame_id == e->frame_id,
        r->FrameReady_width == engine_size(frame).0,
        r->FrameReady_height == engine_size(frame).1,
{
    crate::laws::serving::frame_is_described_as_it_is(frame, token, d);
    crate::laws::hosting::frame_is_seen_at_its_size(e, r);
}

/// Drawing with an engine of width `w` and height `h` shows at the host as a frame of width `w` and
/// height `h`, under the id of the message that announced it.
pub proof fn drawing_shows_at_the_size_of_the_engine<T>(
    engine: &mut DemoEngine,
    next_id: &mut u64,
    handle_passing: bool,
    rest: Rest,
    step: Step,
    shared: &mut SharedState<T>,
    inbox: &mut FrameInbox,
    handles: Option<Vec<OpaqueHandle>>,
    r: Inbound<T>,
    w: u32,
    h: u32,
)
    requires
        call_ensures(resume_request::<DemoEngine>, (engine, next_id, handle_passing, rest), step),
        rest is Draw,
        old(engine).can_draw(),
        old(engine).width == w && old(engine).height == h,
        w > 0 && h > 0,
        !(old(engine).zero_copy && old(engine).prefer_zero_copy),
        step is Send,
        step->out.envelope.message is Event,
        step->out.envelope.message->Event_0 is FrameReady,
        call_ensures(receive::<T>, (shared, inbox, step->out.envelope, handles), r),
    ensures
        r is Report,
        r->event is FrameReady,
        r->event->FrameReady_width == w,
        r->event->FrameReady_height == h,
        r->event->frame_id == *old(next_id),
{
    demo_frame_is_announced_at_its_size(engine, next_id, handle_passing, rest, step);
    event_reaches_the_host(shared, inbox, step->out.envelope, handles, r);
}

/// Where the frame is shared instead, the host sees it at the size of the engine too, and looks at
/// the memory under the handle that came with it, which holds the gradient.
pub proof fn shared_drawing_shows_at_the_size_of_the_engine<T>(
    engine: &mut DemoEngine,
    next_id: &mut u64,
    rest: Rest,
    step: Step,
    export: &Export,
    id: &mut u64,
    fd: OpaqueHandle,
    o: Option<Outgoing>,
    shared: &mut SharedState<T>,
    inbox: &mut FrameInbox,
    handles: Option<Vec<OpaqueHandle>>,
    r: Inbound<T>,
    w: u32,
    h: u32,
)
    requires
        call_ensures(resume_request::<DemoEngine>, (engine, next_id, true, rest), step),
        rest is Draw,
        old(engine).can_draw(),
        old(engine).width == w && old(engine).height == h,
        w > 0 && h > 0,
        old(engine).zero_copy && old(engine).prefer_zero_copy,
        *export == step->export,
        call_ensures(finish_export, (id, true, step->on_request, export, Some(fd)), o),
        handles is Some && handles->0@ == o->0.handles@,
        call_ensures(receive::<T>, (shared, inbox, o->0.envelope, handles), r),
    ensures
        r is Report,
        r->event is FrameReady,
        r->event->FrameReady_width == w,
        r->event->FrameReady_height == h,
        r->event->frame_id == *old(id),
        r->check is Some,
        r->check->0.handle == fd,
        r->check->0.width == w && r->check->0.height == h && r->check->0.stride == 4 * w,
        is_gradient(export.bytes@, w, h),
{
    demo_frame_is_announced_at_its_size(engine, next_id, true, rest, step);
    shared_bitmap_is_announced(id, true, step->on_request, export, Some(fd), o);
    event_reaches_the_host(shared, inbox, o->0.envelope, handles, r);
    assert(4 * w * h > 0) by (nonlinear_arith)
        requires
            w > 0,
            h > 0,
    ;
    shared_frame_is_looked_at(shared, inbox, o->0.envelope, handles, r);
}

/// A size that a host asks for is the size of the frame that it sees next, width as width and
/// height as height.
pub proof fn host_sees_the_size_that_it_asked_for<T, F: Fn(Value) -> CommandResult>(
    c: &mut IpcController,
    size: PhysicalSize,
    sent: Result<Envelope, ControllerError>,
    engine: &mut DemoEngine,
    commands: &mut Option<ServedCommands<F>>,
    next_id: &mut u64,
    server_name: &str,
    handle_passing: bool,
    answer: (Envelope, Rest),
    drawn: &mut DemoEngine,
    id: &mut u64,
    rest: Rest,
    step: Step,
    shared: &mut SharedState<T>,
    inbox: &mut FrameInbox,
    handles: Option<Vec<OpaqueHandle>>,
    r: Inbound<T>,
)
    requires
        usable(*old(c)),
        call_ensures(IpcController::resize, (c, size), sent),
        size.width > 0 && size.height > 0,
        call_ensures(
            handle_request::<DemoEngine, F>,
            (
                engine,
                commands,
                next_id,
                server_name,
                handle_passing,
                sent->Ok_0.version,
                sent->Ok_0.id,
                sent->Ok_0.message->Request_0,
            ),
            answer,
        ),
        *old(drawn) == *final(engine),
        call_ensures(resume_request::<DemoEngine>, (drawn, id, handle_passing, rest), step),
        rest is Draw,
        old(drawn).can_draw(),
        !(old(drawn).zero_copy && old(drawn).prefer_zero_copy),
        step is Send,
        step->out.envelope.message is Event,
        step->out.envelope.message->Event_0 is FrameReady,
        call_ensures(receive::<T>, (shared, inbox, step->out.envelope, handles), r),
    ensures
        r is Report,
        r->event is FrameReady,
        r->event->FrameReady_width == size.width,
        r->event->FrameReady_height == size.height,
{
    size_is_sent_as_given(c, size, sent);
    drawing_shows_at_the_size_of_the_engine(
        drawn,
        id,
        handle_passing,
        rest,
        step,
        shared,
        inbox,
        handles,
        r,
        size.width,
        size.height,
    );
}

/// A load that a host asks for reaches the engine with its URL, the response reaches whoever waits
/// for that load and nobody else, and the load succeeds.
pub proof fn load_is_carried_out_and_answered<T, F: Fn(Value) -> CommandResult>(
    c: &mut IpcController,
    url: &str,
    sent: Result<Envelope, ControllerError>,
    waiting: &mut SharedState<T>,
    waiter: T,
    done: (),
    engine: &mut DemoEngine,
    commands: &mut Option<ServedCommands<F>>,
    next_id: &mut u64,
    server_name: &str,
    handle_passing: bool,
    answer: (Envelope, Rest),
    shared: &mut SharedState<T>,
    inbox: &mut FrameInbox,
    handles: Option<Vec<OpaqueHandle>>,
    r: Inbound<T>,
    shown: &str,
    outcome: Result<(), ControllerError>,
)
    requires
        usable(*old(c)),
        call_ensures(IpcController::load, (c, url), sent),
        call_ensures(SharedState::<T>::register, (waiting, sent->Ok_0.id, waiter), done),
        call_ensures(
            handle_request::<DemoEngine, F>,
            (
                engine,
                commands,
                next_id,
                server_name,
                handle_passing,
                sent->Ok_0.version,
                sent->Ok_0.id,
                sent->Ok_0.message->Request_0,
            ),
            answer,
        ),
        *old(shared) == *final(waiting),
        call_ensures(receive::<T>, (shared, inbox, answer.0, handles), r),
        call_ensures(
            finish_operation,
            (Operation::Load, Waited::Replied(r->response), shown),
            outcome,
        ),
    ensures
        final(engine).last_url is Some && final(engine).last_url->0@ == url@,
        answer.1 is LoadNote && answer.1->LoadNote_url@ == url@,
        r is Deliver && r->to == waiter,
        outcome is Ok,
{
    load_asks_for_its_url(c, url, sent);
    let req = sent->Ok_0.message->Request_0;
    every_request_is_answered(
        engine,
        commands,
        next_id,
        server_name,
        handle_passing,
        sent->Ok_0.version,
        sent->Ok_0.id,
        req,
        answer,
    );
    response_reaches_who_waits(shared, inbox, answer.0, handles, r, sent->Ok_0.id);
    operation_succeeds_if_acknowledged(
        Operation::Load,
        Waited::Replied(r->response),
        shown,
        outcome,
    );
}

/// The scripts, the agent, the port and the directory that a host is configured with are those that
/// the engine of its server is set up with.
pub proof fn host_configuration_reaches_the_engine<F: Fn(Value) -> CommandResult>(
    c: &mut IpcController,
    started: Result<(), ControllerError>,
    global_resources: &Option<String>,
    global_port: Option<u16>,
    sent: Result<Envelope, ControllerError>,
    engine: &mut DemoEngine,
    commands: &mut Option<ServedCommands<F>>,
    next_id: &mut u64,
    server_name: &str,
    handle_passing: bool,
    answer: (Envelope, Rest),
)
    requires
        call_ensures(
            IpcController::server_started,
            (c, started, global_resources, global_port),
            sent,
        ),
        started is Ok && old(c).config is Some,
        call_ensures(
            handle_request::<DemoEngine, F>,
            (
                engine,
                commands,
                next_id,
                server_name,
                handle_passing,
                sent->Ok_0.version,
                sent->Ok_0.id,
                sent->Ok_0.message->Request_0,
            ),
            answer,
        ),
    ensures
        answer.0.message->Response_0 is InitAck,
        old(c).config->0.unix_socket_path is None ==> same_list(
            final(engine).init_scripts@,
            old(c).config->0.init_scripts@,
        ),
        same_option(final(engine).user_agent, old(c).config->0.user_agent),
        old(c).config->0.devtools_port is Some ==> final(engine).devtools_port_cfg == old(
            c).config->0.devtools_port,
        old(c).config->0.resources_dir is Some ==> same_option(
            final(engine).resources_dir,
            old(c).config->0.resources_dir,
        ),
        final(engine).prefer_zero_copy == handle_passing,
{
    started_server_is_greeted(c, started, global_resources, global_port, sent);
    let req = sent->Ok_0.message->Request_0;
    crate::laws::serving::handshake_settles_version_and_name(
        engine,
        commands,
        next_id,
        server_name,
        handle_passing,
        sent->Ok_0.version,
        sent->Ok_0.id,
        req,
        answer,
    );
    handshake_carries_the_configuration(
        engine,
        commands,
        next_id,
        server_name,
        handle_passing,
        sent->Ok_0.version,
        sent->Ok_0.id,
        req,
        answer,
    );
}

} // verus!
