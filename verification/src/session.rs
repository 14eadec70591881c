//! What holds of a session as a whole: between the controller that asks and the server that
//! answers.
use vstd::prelude::*;
use serde_json::Value;
use crate::controller::{ConfigView, ControllerEventView, ConsoleLevel, NavigationStatus};
use crate::engine::{
    gradient, DemoEngine, DemoState, Engine, EngineCall, EngineFrameView, EngineInitView,
};
use crate::ipc_controller::{
    button_of, demo_gradient_passes_inspection, filed, greeting, handshake_error, host_event,
    judged, operation_error, shared_frame_reaches_inspection,
    to_inspect, tokens_of, IpcState, Operation, Waited,
};
use crate::ipc_protocol::{
    EnvelopeView, HandleToken, MouseButton, RequestView, Response, ResponseView, PROTOCOL_VERSION,
};
use crate::ipc_transport::OpaqueHandle;
use crate::server::{
    answer_carries_request_id, answers, described, frame_message, next_after, reply_target, resumed,
    shared_demo_frame_is_described, RestView, Session, Step,
};
use crate::tauri_ipc_adapter::CommandResult;
use crate::winit_runtime::{button_code, HostMouseButton};

verus! {

/// The session in which a server sees an envelope.
pub open spec fn session_of(env: EnvelopeView, server_name: Seq<char>, handle_passing: bool) -> Session {
    Session { server_name, handle_passing, peer_version: env.version, req_id: env.id }
}

/// The request of an operation.
pub open spec fn is_request_of(op: Operation, req: RequestView) -> bool {
    match op {
        Operation::BindSurface => req is BindSurface,
        Operation::Load => req is Load,
        Operation::EvalScript => req is EvalScript,
        Operation::Resize => req is Resize,
        Operation::Draw => req is DrawNow,
    }
}

/// The response to a request that a controller sent is delivered to whoever waits for that
/// request, whatever else is waited for.
pub proof fn reply_reaches_its_sender<T, E: Engine, F: Fn(Value) -> CommandResult>(
    state: IpcState,
    req: RequestView,
    server_name: Seq<char>,
    handle_passing: bool,
    commands: Option<Map<Seq<char>, F>>,
    pre: E,
    post: E,
    resp: ResponseView,
    pending: Map<u64, T>,
    waiter: T,
)
    requires
        !(req is Invoke),
        answers(
            session_of(state.outgoing(req), server_name, handle_passing),
            commands,
            req,
            pre,
            post,
            resp,
        ),
    ensures
        reply_target(resp) == state.next_id,
        pending.insert(state.next_id, waiter).contains_key(reply_target(resp)),
        pending.insert(state.next_id, waiter)[reply_target(resp)] == waiter,
{
    let session = session_of(state.outgoing(req), server_name, handle_passing);
    answer_carries_request_id(session, commands, req, pre, post, resp);
}

/// The handshake of a controller is always taken by a server of the same version, and settles on
/// that version.
pub proof fn own_handshake_succeeds<E: Engine, F: Fn(Value) -> CommandResult>(
    state: IpcState,
    cfg: ConfigView,
    global_resources: Option<Seq<char>>,
    global_port: Option<u16>,
    server_name: Seq<char>,
    handle_passing: bool,
    commands: Option<Map<Seq<char>, F>>,
    pre: E,
    post: E,
    resp: Response,
    shown: Seq<char>,
)
    requires
        ({
            let req = greeting(cfg, global_resources, global_port);
            answers(
                session_of(state.outgoing(req), server_name, handle_passing),
                commands,
                req,
                pre,
                post,
                resp@,
            )
        }),
    ensures
        resp@ is InitAck,
        resp@->chosen_version == PROTOCOL_VERSION,
        handshake_error(Waited::Replied(resp), shown) is None,
{
}

/// Whatever a controller asks in an operation, the server acknowledges, so that an operation that
/// is answered succeeds.
pub proof fn answered_operations_succeed<E: Engine, F: Fn(Value) -> CommandResult>(
    op: Operation,
    state: IpcState,
    req: RequestView,
    server_name: Seq<char>,
    handle_passing: bool,
    commands: Option<Map<Seq<char>, F>>,
    pre: E,
    post: E,
    resp: Response,
    shown: Seq<char>,
)
    requires
        is_request_of(op, req),
        answers(
            session_of(state.outgoing(req), server_name, handle_passing),
            commands,
            req,
            pre,
            post,
            resp@,
        ),
    ensures
        operation_error(op, Waited::Replied(resp), shown) is None,
{
}

/// A load shows at the host as a console line and a committed navigation of the loaded URL.
pub proof fn host_sees_load<E: Engine>(
    url: Seq<char>,
    id: u64,
    handle_passing: bool,
    s1: E,
    s2: E,
    s3: E,
    first: Step,
    second: Step,
)
    requires
        resumed(RestView::LoadNote { url }, id, handle_passing, s1, s2, first),
        resumed(first->rest@, next_after(id), handle_passing, s2, s3, second),
    ensures
        first->out@.envelope.message is Event,
        host_event(first->out@.envelope.message->Event_0) == (ControllerEventView::Console {
            level: ConsoleLevel::Info,
            message: "Load requested: "@ + url,
            source: Some("photon"@),
            line: None,
            column: None,
        }),
        second->out@.envelope.message is Event,
        host_event(second->out@.envelope.message->Event_0) == (ControllerEventView::Navigation {
            status: NavigationStatus::Committed,
            url: Some(url),
            http_status: Some(200),
        }),
{
}

/// A frame that the demonstration engine shares passes the inspection of the host: it is looked at
/// under the handle that came with it, and the memory behind that handle shows the gradient.
pub proof fn shared_demo_frame_verifies(
    id: u64,
    on_request: bool,
    pre: DemoEngine,
    post: DemoEngine,
    step: Step,
    fd: OpaqueHandle,
    held: Map<u64, Seq<OpaqueHandle>>,
)
    requires
        pre.can_draw(),
        pre@.zero_copy,
        pre@.prefer_zero_copy,
        resumed(RestView::Draw { on_request }, id, true, pre, post, step),
    ensures
        step is Share,
        ({
            let out = frame_message(id, step->export.shared(fd), true)->0;
            let d = out.envelope.message->Event_0->descriptor;
            let now = filed(held, tokens_of(d), out.handles);
            &&& to_inspect(now, d) is Some
            &&& to_inspect(now, d)->0.handle == fd
            &&& judged(
                step->export.bytes@,
                to_inspect(now, d)->0.width as nat,
                to_inspect(now, d)->0.height as nat,
                to_inspect(now, d)->0.stride as nat,
            ) == Some(true)
        }),
{
    shared_demo_frame_is_described(id, on_request, pre, post, step, fd);
    let s = pre@.sized();
    let out = frame_message(id, step->export.shared(fd), true)->0;
    let d = out.envelope.message->Event_0->descriptor;
    assert(s.width * 4 * s.height > 0) by (nonlinear_arith)
        requires
            s.width > 0,
            s.height > 0,
    ;
    shared_frame_reaches_inspection(held, d, fd);
    demo_gradient_passes_inspection(s.width as nat, s.height as nat);
    assert(step->export.bytes@ == gradient(s.width as nat, s.height as nat));
}

/// The three main buttons of the windowing system arrive as themselves; every other button arrives
/// by its code.
pub proof fn buttons_arrive_as_themselves(b: HostMouseButton)
    ensures
        button_of(button_code(b)) == (match b {
            HostMouseButton::Left => MouseButton::Left,
            HostMouseButton::Right => MouseButton::Right,
            HostMouseButton::Middle => MouseButton::Middle,
            _ => MouseButton::Other(button_code(b)),
        }),
{
}

/// The demonstration engine shares frames only where the platform can and the session asked for it
/// in its handshake; in a session without handle passing every frame travels inline.
pub proof fn demo_shares_only_when_asked(
    s: DemoState,
    init: EngineInitView,
    calls: Seq<EngineCall>,
)
    requires
        forall|i: int| 0 <= i < calls.len() ==> !((#[trigger] calls[i]) is Init),
    ensures
        demo_after(s.after(EngineCall::Init(init)), calls).drawn() is SharedMemoryExport <==> (
        s.zero_copy && init.prefer_zero_copy),
        !init.prefer_zero_copy ==> demo_after(
            s.after(EngineCall::Init(init)),
            calls,
        ).drawn() is SharedMemoryInline,
{
    demo_keeps_sharing(s.after(EngineCall::Init(init)), calls);
}

/// The state of the demonstration engine after a list of calls.
pub open spec fn demo_after(s: DemoState, calls: Seq<EngineCall>) -> DemoState
    decreases calls.len(),
{
    if calls.len() == 0 {
        s
    } else {
        demo_after(s.after(calls.first()), calls.drop_first())
    }
}

proof fn demo_keeps_sharing(s: DemoState, calls: Seq<EngineCall>)
    requires
        forall|i: int| 0 <= i < calls.len() ==> !((#[trigger] calls[i]) is Init),
    ensures
        demo_after(s, calls).zero_copy == s.zero_copy,
        demo_after(s, calls).prefer_zero_copy == s.prefer_zero_copy,
    decreases calls.len(),
{
    if calls.len() > 0 {
        assert(!(calls[0] is Init));
        let rest = calls.drop_first();
        assert forall|i: int| 0 <= i < rest.len() implies !((#[trigger] rest[i]) is Init) by {
            assert(rest[i] == calls[i + 1]);
        }
        demo_keeps_sharing(s.after(calls.first()), rest);
    }
}

/// No two frames of a session share a handle token, as long as message ids last.
pub proof fn tokens_are_not_reused(
    id: u64,
    f: EngineFrameView,
    later: u64,
    g: EngineFrameView,
    token: u64,
)
    requires
        id < later < u64::MAX,
        described(f, HandleToken(next_after(id))) is Some,
        described(g, HandleToken(next_after(later))) is Some,
        tokens_of(described(f, HandleToken(next_after(id)))->0).contains(token),
    ensures
        !tokens_of(described(g, HandleToken(next_after(later)))->0).contains(token),
{
    assert(token == next_after(id));
    let d = described(g, HandleToken(next_after(later)))->0;
    let ts = tokens_of(d);
    assert forall|i: int| 0 <= i < ts.len() implies ts[i] == next_after(later) by {}
}

} // verus!
