//! The render server: how a request is answered, and which events follow the answer.
//!
//! [`handle_request`] makes the one response to a request and says what is left to do;
//! [`resume_request`] does the rest one message at a time, so that nothing further is drawn or
//! numbered once a message could not be sent.
use vstd::prelude::*;
use vstd::string::*;
use serde_json::Value;
use crate::engine::{
    no_capabilities, DemoEngine, Engine, EngineCall, EngineCapabilities, EngineCapabilitiesView, EngineFrame,
    EngineFrameView, EngineInit, EngineInitView, EngineReply, DmabufPlaneHandle, done_reply,
    capabilities_reply, frame_reply,
};
use crate::ipc_protocol::{
    Capabilities, CapabilitiesView, CompressedFormat, ConsoleLevel, DmabufPlane, Envelope,
    EnvelopeView, ErrorCode, Event, EventView, FrameDescriptor, FrameView, HandleToken, Message,
    MessageView, NavigationStatus, PayloadLocator, PayloadView, PixelFormat, Request,
    RequestView, Response, ResponseView, VersionRange, PROTOCOL_MAX_VERSION, PROTOCOL_VERSION,
};
use crate::ipc_transport::OpaqueHandle;
use crate::json::{
    decode_payload, json_contents, json_encode, json_number, json_object, json_opt_number,
    json_opt_text, json_text, json_to_vec, members, opt_text_contents,
    payload_contents, field_contents, JsonContents,
};
use crate::png::{
    bitmap_file, encode_bitmap, holds_bitmap, is_bitmap, png_file, rgba, tight_rows_stay,
};
use crate::tauri_ipc_adapter::{
    call_outcome, handler_calls, takes, AdapterError, CommandCall, CommandResult,
    ServedCommands,
};
use crate::text::{
    copy_all, copy_opt, decimal, decimal_text, eq_ignore_case, joined, opt_bytes, opt_view,
    same_ignoring_case, trim, trimmed, };

verus! {

/// The number that follows an id; ids stay at their maximum once it is reached.
pub open spec fn next_after(id: u64) -> u64 {
    if id < u64::MAX {
        (id + 1) as u64
    } else {
        id
    }
}

/// Takes the next message id.
pub fn take_id(next_id: &mut u64) -> (id: u64)
    ensures
        id == *old(next_id),
        *final(next_id) == next_after(*old(next_id)),
{
    let id: u64 = *next_id;
    *next_id = id.saturating_add(1);
    id
}

/// Whether a version lies in a range.
pub fn supports_version(range: VersionRange, v: u16) -> (b: bool)
    ensures
        b == (range.min <= v <= range.max),
{
    v >= range.min && v <= range.max
}

/// The version that the server speaks with a peer.
pub open spec fn chosen_version(peer_version: u16) -> u16 {
    if peer_version < PROTOCOL_MAX_VERSION {
        peer_version
    } else {
        PROTOCOL_MAX_VERSION
    }
}

/// The capabilities that a session has: handles and shared frames need both the transport and
/// the engine.
pub open spec fn negotiated(
    engine: EngineCapabilitiesView,
    handle_passing: bool,
) -> CapabilitiesView {
    CapabilitiesView {
        fd_passing: handle_passing && engine.fd_passing,
        zero_copy_frames: handle_passing && engine.zero_copy_frames,
        compressed_frames: engine.compressed_frames,
        supported_compressed: engine.supported_compressed,
        extra: Seq::empty(),
    }
}

/// The text that refuses a handshake.
pub open spec fn no_version_message(supported: VersionRange) -> Seq<char> {
    "no compatible protocol version in range "@ + decimal(supported.min as nat) + "-"@ + decimal(
        supported.max as nat,
    )
}

/// The reply to a command call under `id`.
pub open spec fn invoke_result(id: u64, r: CommandResult) -> ResponseView {
    match r {
        Ok(v) => ResponseView::InvokeResult {
            in_reply_to: id,
            ok: true,
            data: json_encode(json_contents(v)),
            error: None,
        },
        Err(e) => ResponseView::InvokeResult {
            in_reply_to: id,
            ok: false,
            data: None,
            error: Some(e.reply()),
        },
    }
}

/// The id under which a command call is answered: its own, or that of its envelope.
pub open spec fn invoke_id(request_id: Option<u64>, req_id: u64) -> u64 {
    match request_id {
        Some(id) => id,
        None => req_id,
    }
}

/// The handlers that command calls reach, where calls are served.
pub open spec fn handlers<F>(commands: Option<ServedCommands<F>>) -> Option<
    Map<Seq<char>, F>,
> {
    match commands {
        Some(c) => Some(c@),
        None => None,
    }
}

/// What the server knows of a session.
pub struct Session {
    /// Name that the server gives itself.
    pub server_name: Seq<char>,
    /// Whether the transport carries native handles.
    pub handle_passing: bool,
    /// Version of the envelope that the request came in.
    pub peer_version: u16,
    /// Id of that envelope.
    pub req_id: u64,
}

/// What the engine is set up with for a client configuration.
pub open spec fn engine_init(
    config: crate::ipc_protocol::ControllerConfigView,
    handle_passing: bool,
) -> EngineInitView {
    EngineInitView {
        resources_dir: config.resources_dir,
        devtools_port: config.devtools_port,
        user_agent: config.user_agent,
        init_scripts: config.init_scripts,
        prefer_zero_copy: handle_passing,
    }
}

/// The capabilities in a reply; an engine that fails has none.
pub open spec fn reported(reply: EngineReply) -> EngineCapabilitiesView {
    match reply {
        EngineReply::Capabilities(c) => c,
        _ => no_capabilities(),
    }
}

/// `resp` answers `req`, with the engine going from `pre` to `post`.
pub open spec fn answers<E: Engine, F: Fn(Value) -> CommandResult>(
    session: Session,
    commands: Option<Map<Seq<char>, F>>,
    req: RequestView,
    pre: E,
    post: E,
    resp: ResponseView,
) -> bool {
    let ack = ResponseView::Ack { in_reply_to: session.req_id };
    match req {
        RequestView::Init { client_name, supported, config } => {
            let chosen = chosen_version(session.peer_version);
            if supported.min <= chosen <= supported.max {
                exists|reply: EngineReply| #[trigger]
                    E::step(
                        pre,
                        EngineCall::Init(engine_init(config, session.handle_passing)),
                        post,
                        reply,
                    ) && resp == (ResponseView::InitAck {
                        in_reply_to: session.req_id,
                        chosen_version: chosen,
                        server_name: session.server_name,
                        capabilities: negotiated(reported(reply), session.handle_passing),
                    })
            } else {
                post == pre && resp == (ResponseView::Error {
                    in_reply_to: session.req_id,
                    code: ErrorCode::Unsupported,
                    message: no_version_message(supported),
                })
            }
        },
        RequestView::BindSurface { surface } => resp == ack && made(
            pre,
            EngineCall::BindSurface(surface),
            post,
        ),
        RequestView::Load { url } => resp == ack && made(pre, EngineCall::Load(url), post),
        RequestView::EvalScript { source, request_id } => resp == ack && made(
            pre,
            EngineCall::EvalScript(source),
            post,
        ),
        RequestView::Resize { width, height } => resp == ack && made(
            pre,
            EngineCall::Resize(width, height),
            post,
        ),
        RequestView::InputEvent { events } => resp == ack && made(
            pre,
            EngineCall::InputEvents(events),
            post,
        ),
        RequestView::RequestDraw | RequestView::DrawNow | RequestView::Shutdown => resp == ack
            && post == pre,
        RequestView::Invoke { command, payload, request_id } => post == pre && match commands {
            None => resp == (ResponseView::InvokeResult {
                in_reply_to: session.req_id,
                ok: false,
                data: None,
                error: Some("invoke not supported (tauri_ipc feature disabled)"@),
            }),
            Some(c) => call_answered(
                c,
                command,
                payload,
                invoke_id(request_id, session.req_id),
                resp,
            ),
        },
    }
}

/// The handler of a command, if there is one, takes what the payload bytes are decoded to.
pub open spec fn call_taken<F: Fn(Value) -> CommandResult>(
    commands: Map<Seq<char>, F>,
    command: Seq<char>,
    payload: Seq<u8>,
) -> bool {
    forall|v: Value|
        json_contents(v) == payload_contents(payload) ==> #[trigger] takes(commands, command, v)
}

/// The handler calls that were made so far.
pub open spec fn calls_made<F: Fn(Value) -> CommandResult>(
    commands: Option<ServedCommands<F>>,
) -> Seq<CommandCall> {
    match commands {
        Some(c) => c.made(),
        None => Seq::empty(),
    }
}

/// The handler calls that a request leads to: one for a command call whose name has a handler, and
/// none for anything else.
pub open spec fn calls_due<F>(
    commands: Option<Map<Seq<char>, F>>,
    req: RequestView,
) -> Seq<CommandCall> {
    match (commands, req) {
        (Some(c), RequestView::Invoke { command, payload, request_id }) => handler_calls(
            c,
            command,
            payload_contents(payload),
        ),
        _ => Seq::empty(),
    }
}

/// `resp` is the reply under `id` to a call of a command with the given payload bytes.
pub open spec fn call_answered<F: Fn(Value) -> CommandResult>(
    commands: Map<Seq<char>, F>,
    command: Seq<char>,
    payload: Seq<u8>,
    id: u64,
    resp: ResponseView,
) -> bool {
    exists|v: Value, r: CommandResult| #[trigger]
        call_outcome(commands, command, v, r) && json_contents(v) == payload_contents(payload)
            && resp == invoke_result(id, r)
}

/// The engine has been called, whatever it replied.
pub open spec fn made<E: Engine>(pre: E, call: EngineCall, post: E) -> bool {
    exists|reply: EngineReply| E::step(pre, call, post, reply)
}

/// What is left to do for a request once it is answered.
pub enum Rest {
    Finished,
    /// Report that a load was requested.
    LoadNote { url: String },
    /// Report that a navigation was committed.
    Committed { url: String },
    /// Report that a script was received.
    EvalNote,
    /// Draw a frame; `on_request` tells a scheduled draw from an immediate one.
    Draw { on_request: bool },
}

/// View of a [`Rest`].
pub enum RestView {
    Finished,
    LoadNote { url: Seq<char> },
    Committed { url: Seq<char> },
    EvalNote,
    Draw { on_request: bool },
}

impl View for Rest {
    type V = RestView;

    open spec fn view(&self) -> RestView {
        match *self {
            Rest::Finished => RestView::Finished,
            Rest::LoadNote { url } => RestView::LoadNote { url: url@ },
            Rest::Committed { url } => RestView::Committed { url: url@ },
            Rest::EvalNote => RestView::EvalNote,
            Rest::Draw { on_request } => RestView::Draw { on_request },
        }
    }
}

/// What a request leaves to do.
pub open spec fn rest_of(req: RequestView) -> RestView {
    match req {
        RequestView::Load { url } => RestView::LoadNote { url },
        RequestView::EvalScript { source, request_id } => RestView::EvalNote,
        RequestView::RequestDraw => RestView::Draw { on_request: true },
        RequestView::DrawNow => RestView::Draw { on_request: false },
        _ => RestView::Finished,
    }
}

/// The envelope of a message of the server.
pub open spec fn sealed(id: u64, message: MessageView) -> EnvelopeView {
    EnvelopeView { version: PROTOCOL_VERSION, id, flags: 0, message }
}

fn response_envelope(next_id: &mut u64, resp: Response) -> (env: Envelope)
    ensures
        env@ == sealed(*old(next_id), MessageView::Response(resp@)),
        *final(next_id) == next_after(*old(next_id)),
{
    Envelope {
        version: PROTOCOL_VERSION,
        id: take_id(next_id),
        flags: 0,
        message: Message::Response(resp),
    }
}

fn no_version_text(supported: VersionRange) -> (s: String)
    ensures
        s@ == no_version_message(supported),
{
    let mut s = joined(
        "no compatible protocol version in range ",
        decimal_text(supported.min as u64).as_str(),
    );
    s.append("-");
    s.append(decimal_text(supported.max as u64).as_str());
    s
}

fn copy_formats(v: &Vec<CompressedFormat>) -> (r: Vec<CompressedFormat>)
    ensures
        r@ == v@,
{
    let mut out: Vec<CompressedFormat> = Vec::new();
    let mut i: usize = 0;
    while i < v.len()
        invariant
            i <= v.len(),
            out@ == v@.take(i as int),
        decreases v.len() - i,
    {
        out.push(v[i]);
        i += 1;
        proof {
            assert(out@ =~= v@.take(i as int));
        }
    }
    proof {
        assert(out@ =~= v@);
    }
    out
}

fn negotiate(engine: EngineCapabilities, handle_passing: bool) -> (c: Capabilities)
    ensures
        c@ == negotiated(engine@, handle_passing),
{
    let c = Capabilities {
        fd_passing: handle_passing && engine.fd_passing,
        zero_copy_frames: handle_passing && engine.zero_copy_frames,
        compressed_frames: engine.compressed_frames,
        supported_compressed: copy_formats(&engine.supported_compressed),
        extra: Vec::new(),
    };
    proof {
        assert(c@.extra =~= Seq::empty());
    }
    c
}

fn init_response<E: Engine>(
    engine: &mut E,
    server_name: &str,
    handle_passing: bool,
    peer_version: u16,
    req_id: u64,
    supported: VersionRange,
    config: crate::ipc_protocol::ControllerConfig,
) -> (resp: Response)
    requires
        old(engine).wf(),
    ensures
        final(engine).wf(),
        ({
            let chosen = chosen_version(peer_version);
            if supported.min <= chosen <= supported.max {
                exists|reply: EngineReply| #[trigger]
                    E::step(
                        *old(engine),
                        EngineCall::Init(engine_init(config@, handle_passing)),
                        *final(engine),
                        reply,
                    ) && resp@ == (ResponseView::InitAck {
                        in_reply_to: req_id,
                        chosen_version: chosen,
                        server_name: server_name@,
                        capabilities: negotiated(reported(reply), handle_passing),
                    })
            } else {
                *final(engine) == *old(engine) && resp@ == (ResponseView::Error {
                    in_reply_to: req_id,
                    code: ErrorCode::Unsupported,
                    message: no_version_message(supported),
                })
            }
        }),
{
    let chosen: u16 = if peer_version < PROTOCOL_MAX_VERSION {
        peer_version
    } else {
        PROTOCOL_MAX_VERSION
    };
    if !supports_version(supported, chosen) {
        return Response::Error {
            in_reply_to: req_id,
            code: ErrorCode::Unsupported,
            message: no_version_text(supported),
        };
    }
    let resources_dir = match &config.resources_dir {
        Some(p) => Some(p.0.clone()),
        None => None,
    };
    let init = EngineInit {
        resources_dir,
        devtools_port: config.devtools_port,
        user_agent: copy_opt(&config.user_agent),
        init_scripts: copy_all(&config.init_scripts),
        prefer_zero_copy: handle_passing,
    };
    proof {
        assert(init@ == engine_init(config@, handle_passing));
    }
    let outcome = engine.init(init);
    let ghost reply = capabilities_reply(outcome);
    let caps = match outcome {
        Ok(c) => c,
        Err(_) => EngineCapabilities::default(),
    };
    proof {
        assert(caps@ == reported(reply));
    }
    Response::InitAck {
        in_reply_to: req_id,
        chosen_version: chosen,
        server_name: server_name.to_owned(),
        capabilities: negotiate(caps, handle_passing),
    }
}

fn invoke_response<F: Fn(Value) -> CommandResult>(
    commands: &mut Option<ServedCommands<F>>,
    command: String,
    payload: Vec<u8>,
    request_id: Option<u64>,
    req_id: u64,
) -> (resp: Response)
    requires
        *old(commands) is Some ==> old(commands)->0.wf(),
        *old(commands) is Some ==> call_taken(old(commands)->0@, command@, payload@),
    ensures
        *final(commands) is Some ==> final(commands)->0.wf(),
        handlers(*final(commands)) == handlers(*old(commands)),
        calls_made(*final(commands)) == calls_made(*old(commands)) + (match *old(commands) {
            Some(c) => handler_calls(c@, command@, payload_contents(payload@)),
            None => Seq::empty(),
        }),
        match *old(commands) {
            None => resp@ == (ResponseView::InvokeResult {
                in_reply_to: req_id,
                ok: false,
                data: None,
                error: Some("invoke not supported (tauri_ipc feature disabled)"@),
            }),
            Some(c) => call_answered(
                c@,
                command@,
                payload@,
                invoke_id(request_id, req_id),
                resp@,
            ),
        },
{
    match commands {
        None => Response::InvokeResult {
            in_reply_to: req_id,
            ok: false,
            data: None,
            error: Some("invoke not supported (tauri_ipc feature disabled)".to_owned()),
        },
        Some(c) => {
            let id: u64 = match request_id {
                Some(id) => id,
                None => req_id,
            };
            let v = decode_payload(&payload);
            let ghost known = c@;
            let result = c.call(command.as_str(), v);
            proof {
                assert(call_outcome(known, command@, v, result));
            }
            let ghost want = invoke_result(id, result);
            let resp = match result {
                Ok(value) => {
                    let data = match json_to_vec(&value) {
                        Ok(b) => Some(b),
                        Err(_) => None,
                    };
                    Response::InvokeResult { in_reply_to: id, ok: true, data, error: None }
                },
                Err(e) => Response::InvokeResult {
                    in_reply_to: id,
                    ok: false,
                    data: None,
                    error: Some(e.err_to_string()),
                },
            };
            proof {
                assert(resp@ == want);
            }
            resp
        },
    }
}

/// Answers a request: makes the one response, in an envelope with the next message id, and says
/// what is left to do once it has been sent.  Command calls reach `commands`; without them every
/// call is refused.
pub fn handle_request<E: Engine, F: Fn(Value) -> CommandResult>(
    engine: &mut E,
    commands: &mut Option<ServedCommands<F>>,
    next_id: &mut u64,
    server_name: &str,
    handle_passing: bool,
    peer_version: u16,
    req_id: u64,
    req: Request,
) -> (r: (Envelope, Rest))
    requires
        old(engine).wf(),
        *old(commands) is Some ==> old(commands)->0.wf(),
        *old(commands) is Some && req is Invoke ==> call_taken(
            old(commands)->0@,
            req@->command,
            req@->payload,
        ),
    ensures
        final(engine).wf(),
        *final(commands) is Some ==> final(commands)->0.wf(),
        handlers(*final(commands)) == handlers(*old(commands)),
        calls_made(*final(commands)) == calls_made(*old(commands)) + calls_due(
            handlers(*old(commands)),
            req@,
        ),
        *final(next_id) == next_after(*old(next_id)),
        r.0@.message is Response,
        r.0@ == sealed(*old(next_id), r.0@.message),
        answers(
            Session { server_name: server_name@, handle_passing, peer_version, req_id },
            handlers(*old(commands)),
            req@,
            *old(engine),
            *final(engine),
            r.0@.message->Response_0,
        ),
        r.1@ == rest_of(req@),
{
    let (resp, rest) = match req {
        Request::Init { client_name: _, supported, config } => (
            init_response(
                engine,
                server_name,
                handle_passing,
                peer_version,
                req_id,
                supported,
                config,
            ),
            Rest::Finished,
        ),
        Request::BindSurface { surface } => {
            let outcome = engine.bind_surface(&surface);
            proof {
                assert(E::step(
                    *old(engine),
                    EngineCall::BindSurface(surface),
                    *engine,
                    done_reply(outcome),
                ));
            }
            (Response::Ack { in_reply_to: req_id }, Rest::Finished)
        },
        Request::Load { url } => {
            let outcome = engine.load(url.as_str());
            proof {
                assert(E::step(
                    *old(engine),
                    EngineCall::Load(url@),
                    *engine,
                    done_reply(outcome),
                ));
            }
            (Response::Ack { in_reply_to: req_id }, Rest::LoadNote { url })
        },
        Request::EvalScript { source, request_id: _ } => {
            let outcome = engine.eval_script(source.as_str());
            proof {
                assert(E::step(
                    *old(engine),
                    EngineCall::EvalScript(source@),
                    *engine,
                    done_reply(outcome),
                ));
            }
            (Response::Ack { in_reply_to: req_id }, Rest::EvalNote)
        },
        Request::Invoke { command, payload, request_id } => (
            invoke_response(commands, command, payload, request_id, req_id),
            Rest::Finished,
        ),
        Request::Resize { width, height } => {
            let outcome = engine.resize(width, height);
            proof {
                assert(E::step(
                    *old(engine),
                    EngineCall::Resize(width, height),
                    *engine,
                    done_reply(outcome),
                ));
            }
            (Response::Ack { in_reply_to: req_id }, Rest::Finished)
        },
        Request::RequestDraw => (
            Response::Ack { in_reply_to: req_id },
            Rest::Draw { on_request: true },
        ),
        Request::DrawNow => (Response::Ack { in_reply_to: req_id }, Rest::Draw { on_request: false }),
        Request::InputEvent { events } => {
            let outcome = engine.input_events(&events);
            proof {
                assert(E::step(
                    *old(engine),
                    EngineCall::InputEvents(crate::ipc_protocol::event_views(events@)),
                    *engine,
                    done_reply(outcome),
                ));
            }
            (Response::Ack { in_reply_to: req_id }, Rest::Finished)
        },
        Request::Shutdown => (Response::Ack { in_reply_to: req_id }, Rest::Finished),
    };
    let env = response_envelope(next_id, resp);
    (env, rest)
}

/// The name of a navigation status for web content.
pub open spec fn status_name(s: NavigationStatus) -> Seq<char> {
    match s {
        NavigationStatus::Started => "started"@,
        NavigationStatus::Committed => "committed"@,
        NavigationStatus::Finished => "finished"@,
        NavigationStatus::Failed => "failed"@,
    }
}

/// Names a navigation status for web content.
pub fn status_to_str(s: NavigationStatus) -> (r: &'static str)
    ensures
        r@ == status_name(s),
{
    match s {
        NavigationStatus::Started => "started",
        NavigationStatus::Committed => "committed",
        NavigationStatus::Finished => "finished",
        NavigationStatus::Failed => "failed",
    }
}

/// The name of a console level for web content.
pub open spec fn level_name(l: ConsoleLevel) -> Seq<char> {
    match l {
        ConsoleLevel::Debug => "debug"@,
        ConsoleLevel::Info => "info"@,
        ConsoleLevel::Warn => "warn"@,
        ConsoleLevel::Error => "error"@,
    }
}

/// Names a console level for web content.
pub fn level_to_str(l: ConsoleLevel) -> (r: &'static str)
    ensures
        r@ == level_name(l),
{
    match l {
        ConsoleLevel::Debug => "debug",
        ConsoleLevel::Info => "info",
        ConsoleLevel::Warn => "warn",
        ConsoleLevel::Error => "error",
    }
}

/// A number that is given as `u32`.
pub open spec fn opt_u32_contents(o: Option<u32>) -> JsonContents {
    match o {
        Some(n) => JsonContents::Integer(n as int),
        None => JsonContents::Null,
    }
}

/// A number that is given as `u16`.
pub open spec fn opt_u16_contents(o: Option<u16>) -> JsonContents {
    match o {
        Some(n) => JsonContents::Integer(n as int),
        None => JsonContents::Null,
    }
}

/// The name and payload under which an event is published to web content; frames are not.
pub open spec fn adapter_event(e: EventView) -> Option<(Seq<char>, JsonContents)> {
    match e {
        EventView::Navigation { status, url, http_status } => Some(
            (
                "navigation"@,
                JsonContents::Object(
                    members(
                        seq![
                            ("status"@, JsonContents::Text(status_name(status))),
                            ("url"@, opt_text_contents(url)),
                            ("http_status"@, opt_u16_contents(http_status)),
                        ],
                    ),
                ),
            ),
        ),
        EventView::ConsoleMessage { level, message, source, line, column } => Some(
            (
                "console"@,
                JsonContents::Object(
                    members(
                        seq![
                            ("level"@, JsonContents::Text(level_name(level))),
                            ("message"@, JsonContents::Text(message)),
                            ("source"@, opt_text_contents(source)),
                            ("line"@, opt_u32_contents(line)),
                            ("column"@, opt_u32_contents(column)),
                        ],
                    ),
                ),
            ),
        ),
        EventView::DevToolsPortOpened { port, url } => Some(
            (
                "devtools_port_opened"@,
                JsonContents::Object(
                    members(
                        seq![
                            ("port"@, JsonContents::Integer(port as int)),
                            ("url"@, opt_text_contents(url)),
                        ],
                    ),
                ),
            ),
        ),
        EventView::FrameReady { frame_id, descriptor } => None,
    }
}

/// The name and contents of a published event.
pub open spec fn published(p: Option<(String, Value)>) -> Option<(Seq<char>, JsonContents)> {
    match p {
        Some((name, payload)) => Some((name@, json_contents(payload))),
        None => None,
    }
}

fn opt_u32_json(o: &Option<u32>) -> (v: Value)
    ensures
        json_contents(v) == opt_u32_contents(*o),
{
    match o {
        Some(n) => json_number(*n as u64),
        None => json_opt_number(None),
    }
}

fn opt_u16_json(o: &Option<u16>) -> (v: Value)
    ensures
        json_contents(v) == opt_u16_contents(*o),
{
    match o {
        Some(n) => json_number(*n as u64),
        None => json_opt_number(None),
    }
}

/// How an event is published to web content.
pub fn map_proto_event_to_adapter(evt: &Event) -> (r: Option<(String, Value)>)
    ensures
        published(r) == adapter_event(evt@),
{
    match evt {
        Event::Navigation { status, url, http_status } => {
            let mut fields: Vec<(String, Value)> = Vec::new();
            fields.push(("status".to_owned(), json_text(status_to_str(*status))));
            fields.push(("url".to_owned(), json_opt_text(url)));
            fields.push(("http_status".to_owned(), opt_u16_json(http_status)));
            proof {
                assert(field_contents(fields@) =~= seq![
                    ("status"@, JsonContents::Text(status_name(*status))),
                    ("url"@, opt_text_contents(opt_view(*url))),
                    ("http_status"@, opt_u16_contents(*http_status)),
                ]);
            }
            Some(("navigation".to_owned(), json_object(fields)))
        },
        Event::ConsoleMessage { level, message, source, line, column } => {
            let mut fields: Vec<(String, Value)> = Vec::new();
            fields.push(("level".to_owned(), json_text(level_to_str(*level))));
            fields.push(("message".to_owned(), json_text(message.as_str())));
            fields.push(("source".to_owned(), json_opt_text(source)));
            fields.push(("line".to_owned(), opt_u32_json(line)));
            fields.push(("column".to_owned(), opt_u32_json(column)));
            proof {
                assert(field_contents(fields@) =~= seq![
                    ("level"@, JsonContents::Text(level_name(*level))),
                    ("message"@, JsonContents::Text(message@)),
                    ("source"@, opt_text_contents(opt_view(*source))),
                    ("line"@, opt_u32_contents(*line)),
                    ("column"@, opt_u32_contents(*column)),
                ]);
            }
            Some(("console".to_owned(), json_object(fields)))
        },
        Event::DevToolsPortOpened { port, url } => {
            let mut fields: Vec<(String, Value)> = Vec::new();
            fields.push(("port".to_owned(), json_number(*port as u64)));
            fields.push(("url".to_owned(), json_opt_text(url)));
            proof {
                assert(field_contents(fields@) =~= seq![
                    ("port"@, JsonContents::Integer(*port as int)),
                    ("url"@, opt_text_contents(opt_view(*url))),
                ]);
            }
            Some(("devtools_port_opened".to_owned(), json_object(fields)))
        },
        Event::FrameReady { frame_id: _, descriptor: _ } => None,
    }
}

/// A message to send, the native handles that go with it, and how the event that it carries is
/// published to web content once it has been sent.
pub struct Outgoing {
    pub envelope: Envelope,
    pub handles: Vec<OpaqueHandle>,
    pub publish: Option<(String, Value)>,
}

/// View of an [`Outgoing`].
pub struct OutgoingView {
    pub envelope: EnvelopeView,
    pub handles: Seq<OpaqueHandle>,
    pub publish: Option<(Seq<char>, JsonContents)>,
}

impl View for Outgoing {
    type V = OutgoingView;

    open spec fn view(&self) -> OutgoingView {
        OutgoingView {
            envelope: self.envelope@,
            handles: self.handles@,
            publish: published(self.publish),
        }
    }
}

/// The message that carries an event under an id.
pub open spec fn event_message(id: u64, e: EventView, handles: Seq<OpaqueHandle>) -> OutgoingView {
    OutgoingView {
        envelope: sealed(id, MessageView::Event(e)),
        handles,
        publish: adapter_event(e),
    }
}

fn event_outgoing(next_id: &mut u64, evt: Event, handles: Vec<OpaqueHandle>) -> (o: Outgoing)
    ensures
        o@ == event_message(*old(next_id), evt@, handles@),
        *final(next_id) == next_after(*old(next_id)),
{
    let publish = map_proto_event_to_adapter(&evt);
    Outgoing {
        envelope: Envelope {
            version: PROTOCOL_VERSION,
            id: take_id(next_id),
            flags: 0,
            message: Message::Event(evt),
        },
        handles,
        publish,
    }
}

/// A console line of the server.
pub open spec fn server_note(level: ConsoleLevel, message: Seq<char>) -> EventView {
    EventView::ConsoleMessage {
        level,
        message,
        source: Some("photon"@),
        line: None,
        column: None,
    }
}

fn note(level: ConsoleLevel, message: String) -> (e: Event)
    ensures
        e@ == server_note(level, message@),
{
    Event::ConsoleMessage {
        level,
        message,
        source: Some("photon".to_owned()),
        line: None,
        column: None,
    }
}

/// The planes of a dmabuf frame under a token.
pub open spec fn tokened_planes(planes: Seq<DmabufPlaneHandle>, token: HandleToken) -> Seq<
    DmabufPlane,
> {
    Seq::new(
        planes.len(),
        |i: int|
            DmabufPlane {
                fd: token,
                offset: planes[i].offset,
                stride: planes[i].stride,
                plane_index: planes[i].plane_index,
            },
    )
}

/// The handles of a dmabuf frame: one per plane, then the fence.
pub open spec fn plane_handles(
    planes: Seq<DmabufPlaneHandle>,
    fence: Option<OpaqueHandle>,
) -> Seq<OpaqueHandle> {
    let fds = Seq::new(planes.len(), |i: int| planes[i].fd);
    match fence {
        Some(f) => fds.push(f),
        None => fds,
    }
}

/// The description of a PNG file of a bitmap, where there is one.
pub open spec fn png_frame(width: u32, height: u32, file: Option<Seq<u8>>) -> Option<FrameView> {
    match file {
        Some(data) => Some(
            FrameView::CompressedImage {
                width,
                height,
                format: CompressedFormat::Png,
                payload: PayloadView::Inline(data),
            },
        ),
        None => None,
    }
}

/// Describes the PNG file of a bitmap, where there is one.
pub fn describe_png(width: u32, height: u32, file: Option<Vec<u8>>) -> (d: Option<FrameDescriptor>)
    ensures
        opt_descriptor(d) == png_frame(width, height, opt_bytes(file)),
{
    match file {
        Some(data) => Some(
            FrameDescriptor::CompressedImage {
                width,
                height,
                format: CompressedFormat::Png,
                payload: PayloadLocator::Inline(data),
            },
        ),
        None => None,
    }
}

/// A possible description.
pub open spec fn opt_descriptor(d: Option<FrameDescriptor>) -> Option<FrameView> {
    match d {
        Some(d) => Some(d@),
        None => None,
    }
}

/// How a frame is described to the host, with `token` standing for its handles.  A bitmap by
/// value travels as a PNG file; `None` where the encoder refuses it.  Bytes that are no bitmap of
/// four byte channels travel as they are.
pub open spec fn described(f: EngineFrameView, token: HandleToken) -> Option<FrameView> {
    match f {
        EngineFrameView::SharedMemoryInline { width, height, stride, format, bytes } => {
            if is_bitmap(width, height, stride, format, bytes) {
                png_frame(width, height, bitmap_file(width, height, stride, format, bytes))
            } else {
                png_frame(width, height, Some(bytes))
            }
        },
        EngineFrameView::SharedMemoryExport { width, height, stride, format, bytes } => {
            Some(FrameView::SharedMemoryImage {
                width,
                height,
                stride,
                format,
                shm: token,
                size: bytes.len() as u64,
            })
        },
        EngineFrameView::SharedMemoryHandle { width, height, stride, format, fd, size } => {
            Some(FrameView::SharedMemoryImage { width, height, stride, format, shm: token, size })
        },
        EngineFrameView::LinuxDmabuf { width, height, fourcc, modifier, planes, fence } => {
            Some(FrameView::LinuxDmabuf {
                width,
                height,
                fourcc,
                modifier,
                planes: tokened_planes(planes, token),
                fence: Some(token),
            })
        },
        EngineFrameView::MacOsIoSurface { width, height, pixel_format, io_surface_id } => {
            Some(FrameView::MacOsIoSurface { width, height, pixel_format, io_surface: token })
        },
        EngineFrameView::WindowsDxgiSharedHandle { width, height, dxgi_format, handle_value } => {
            Some(FrameView::WindowsDxgiSharedHandle { width, height, dxgi_format, handle: token })
        },
        EngineFrameView::CompressedImage { width, height, format, data } => {
            Some(FrameView::CompressedImage { width, height, format, payload: PayloadView::Inline(data) })
        },
    }
}

/// The native handles that travel with a frame.
pub open spec fn attached(f: EngineFrameView) -> Seq<OpaqueHandle> {
    match f {
        EngineFrameView::SharedMemoryHandle { width, height, stride, format, fd, size } => seq![fd],
        EngineFrameView::LinuxDmabuf { width, height, fourcc, modifier, planes, fence } => {
            plane_handles(planes, fence)
        },
        EngineFrameView::WindowsDxgiSharedHandle { width, height, dxgi_format, handle_value } => {
            seq![OpaqueHandle(handle_value)]
        },
        _ => Seq::empty(),
    }
}

/// The message that announces a frame: the frame has the id of its message, the token for its
/// handles is the id after that, and handles travel only where the transport carries them.  `None`
/// where the frame cannot be described.
pub open spec fn frame_message(
    id: u64,
    f: EngineFrameView,
    handle_passing: bool,
) -> Option<OutgoingView> {
    match described(f, HandleToken(next_after(id))) {
        Some(descriptor) => Some(
            event_message(
                id,
                EventView::FrameReady { frame_id: id, descriptor },
                if handle_passing {
                    attached(f)
                } else {
                    Seq::empty()
                },
            ),
        ),
        None => None,
    }
}

/// Describes a frame to the host and collects its handles; `None` where it cannot be described.
pub fn describe_frame(frame: EngineFrame, token: HandleToken) -> (r: Option<
    (FrameDescriptor, Vec<OpaqueHandle>),
>)
    ensures
        match r {
            Some((descriptor, handles)) => described(frame@, token) == Some(descriptor@)
                && handles@ == attached(frame@),
            None => described(frame@, token) is None,
        },
{
    let mut handles: Vec<OpaqueHandle> = Vec::new();
    let descriptor = match frame {
        EngineFrame::SharedMemoryInline { width, height, stride, format, bytes } => {
            let file = if holds_bitmap(width, height, stride, format, &bytes) {
                encode_bitmap(width, height, stride, format, bytes)
            } else {
                Some(bytes)
            };
            match describe_png(width, height, file) {
                Some(d) => d,
                None => return None,
            }
        },
        EngineFrame::SharedMemoryExport { width, height, stride, format, bytes } => {
            FrameDescriptor::SharedMemoryImage {
                width,
                height,
                stride,
                format,
                shm: token,
                size: bytes.len() as u64,
            }
        },
        EngineFrame::SharedMemoryHandle { width, height, stride, format, fd, size } => {
            handles.push(fd);
            FrameDescriptor::SharedMemoryImage { width, height, stride, format, shm: token, size }
        },
        EngineFrame::LinuxDmabuf { width, height, fourcc, modifier, planes, fence } => {
            let mut described_planes: Vec<DmabufPlane> = Vec::new();
            let mut i: usize = 0;
            while i < planes.len()
                invariant
                    i <= planes.len(),
                    handles@ == plane_handles(planes@.take(i as int), None),
                    described_planes@ == tokened_planes(planes@.take(i as int), token),
                decreases planes.len() - i,
            {
                let p = planes[i];
                handles.push(p.fd);
                described_planes.push(
                    DmabufPlane {
                        fd: token,
                        offset: p.offset,
                        stride: p.stride,
                        plane_index: p.plane_index,
                    },
                );
                i += 1;
                proof {
                    assert(handles@ =~= plane_handles(planes@.take(i as int), None));
                    assert(described_planes@ =~= tokened_planes(planes@.take(i as int), token));
                }
            }
            proof {
                assert(planes@.take(i as int) =~= planes@);
            }
            match fence {
                Some(f) => handles.push(f),
                None => {},
            }
            FrameDescriptor::LinuxDmabuf {
                width,
                height,
                fourcc,
                modifier,
                planes: described_planes,
                fence: Some(token),
            }
        },
        EngineFrame::MacOsIoSurface { width, height, pixel_format, io_surface_id: _ } => {
            FrameDescriptor::MacOsIoSurface { width, height, pixel_format, io_surface: token }
        },
        EngineFrame::WindowsDxgiSharedHandle { width, height, dxgi_format, handle_value } => {
            handles.push(OpaqueHandle(handle_value));
            FrameDescriptor::WindowsDxgiSharedHandle { width, height, dxgi_format, handle: token }
        },
        EngineFrame::CompressedImage { width, height, format, data } => {
            FrameDescriptor::CompressedImage {
                width,
                height,
                format,
                payload: PayloadLocator::Inline(data),
            }
        },
    };
    proof {
        assert(handles@ =~= attached(frame@));
    }
    Some((descriptor, handles))
}

fn frame_outgoing(next_id: &mut u64, frame: EngineFrame, handle_passing: bool) -> (o: Option<
    Outgoing,
>)
    ensures
        opt_outgoing(o) == frame_message(*old(next_id), frame@, handle_passing),
        *final(next_id) == (if o is Some {
            next_after(*old(next_id))
        } else {
            *old(next_id)
        }),
{
    let id: u64 = *next_id;
    let token = HandleToken(id.saturating_add(1));
    let (descriptor, handles) = match describe_frame(frame, token) {
        Some(d) => d,
        None => return None,
    };
    let sent = if handle_passing {
        handles
    } else {
        Vec::new()
    };
    proof {
        assert(!handle_passing ==> sent@ =~= Seq::empty());
    }
    Some(event_outgoing(next_id, Event::FrameReady { frame_id: id, descriptor }, sent))
}

/// A bitmap that has yet to be placed in shared memory.
pub struct Export {
    pub width: u32,
    pub height: u32,
    pub stride: u32,
    pub format: PixelFormat,
    pub bytes: Vec<u8>,
}

impl Export {
    /// The frame that the bitmap becomes once it is in shared memory.
    pub open spec fn shared(&self, fd: OpaqueHandle) -> EngineFrameView {
        EngineFrameView::SharedMemoryHandle {
            width: self.width,
            height: self.height,
            stride: self.stride,
            format: self.format,
            fd,
            size: self.bytes@.len() as u64,
        }
    }

    /// The frame that the bitmap came from.
    pub open spec fn source(&self) -> EngineFrameView {
        EngineFrameView::SharedMemoryExport {
            width: self.width,
            height: self.height,
            stride: self.stride,
            format: self.format,
            bytes: self.bytes@,
        }
    }
}

/// The next thing to do for a request.
pub enum Step {
    /// Nothing.
    Finished,
    /// Send a message, then go on with the rest.
    Send { out: Outgoing, rest: Rest },
    /// Place a bitmap in shared memory, then call [`finish_export`].
    Share { export: Export, on_request: bool },
}

/// The message for a draw that gave no frame, or none that can be described: a scheduled draw is reported, an immediate one is
/// not.
pub open spec fn no_frame(id: u64, on_request: bool) -> Option<OutgoingView> {
    if on_request {
        Some(
            event_message(
                id,
                server_note(ConsoleLevel::Info, "Draw requested (no frame produced)"@),
                Seq::empty(),
            ),
        )
    } else {
        None
    }
}

/// The step sends the message and leaves `rest`.
pub open spec fn sends(step: Step, out: OutgoingView, rest: RestView) -> bool {
    step is Send && step->out@ == out && step->rest@ == rest
}

/// What follows a draw that came back with `reply`, under the message id `id`.
pub open spec fn drawn(
    reply: EngineReply,
    id: u64,
    on_request: bool,
    handle_passing: bool,
    step: Step,
) -> bool {
    match reply {
        EngineReply::Frame(Some(f)) => if f is SharedMemoryExport {
            step is Share && step->export.source() == f && step->on_request == on_request
        } else {
            match frame_message(id, f, handle_passing) {
                Some(out) => sends(step, out, RestView::Finished),
                None => ends(step, no_frame(id, on_request)),
            }
        },
        _ => ends(step, no_frame(id, on_request)),
    }
}

/// The step sends the message, if there is one, and nothing is left.
pub open spec fn ends(step: Step, out: Option<OutgoingView>) -> bool {
    match out {
        Some(out) => sends(step, out, RestView::Finished),
        None => step is Finished,
    }
}

/// The engine call that draws.
pub open spec fn draw_call(on_request: bool) -> EngineCall {
    if on_request {
        EngineCall::RequestDraw
    } else {
        EngineCall::DrawNow
    }
}

/// `step` is what comes next when `rest` is left to do, with the engine going from `pre` to `post`.
pub open spec fn resumed<E: Engine>(
    rest: RestView,
    id: u64,
    handle_passing: bool,
    pre: E,
    post: E,
    step: Step,
) -> bool {
    match rest {
        RestView::Finished => post == pre && step is Finished,
        RestView::LoadNote { url } => post == pre && sends(
            step,
            event_message(
                id,
                server_note(ConsoleLevel::Info, "Load requested: "@ + url),
                Seq::empty(),
            ),
            RestView::Committed { url },
        ),
        RestView::Committed { url } => post == pre && sends(
            step,
            event_message(
                id,
                EventView::Navigation {
                    status: NavigationStatus::Committed,
                    url: Some(url),
                    http_status: Some(200),
                },
                Seq::empty(),
            ),
            RestView::Finished,
        ),
        RestView::EvalNote => post == pre && sends(
            step,
            event_message(
                id,
                server_note(ConsoleLevel::Debug, "EvalScript received"@),
                Seq::empty(),
            ),
            RestView::Finished,
        ),
        RestView::Draw { on_request } => if pre.can_draw() {
            exists|reply: EngineReply| #[trigger]
                E::step(pre, draw_call(on_request), post, reply) && drawn(
                    reply,
                    id,
                    on_request,
                    handle_passing,
                    step,
                )
        } else {
            post == pre && ends(step, no_frame(id, on_request))
        },
    }
}

/// Goes on with a request whose last message has been sent.  A frame that is too large for this
/// machine is not drawn.
pub fn resume_request<E: Engine>(
    engine: &mut E,
    next_id: &mut u64,
    handle_passing: bool,
    rest: Rest,
) -> (step: Step)
    requires
        old(engine).wf(),
    ensures
        final(engine).wf(),
        resumed(rest@, *old(next_id), handle_passing, *old(engine), *final(engine), step),
        *final(next_id) == (if step is Send {
            next_after(*old(next_id))
        } else {
            *old(next_id)
        }),
{
    let ghost id = *next_id;
    match rest {
        Rest::Finished => Step::Finished,
        Rest::LoadNote { url } => {
            let evt = note(ConsoleLevel::Info, joined("Load requested: ", url.as_str()));
            let none: Vec<OpaqueHandle> = Vec::new();
            proof {
                assert(none@ =~= Seq::empty());
            }
            let out = event_outgoing(next_id, evt, none);
            Step::Send { out, rest: Rest::Committed { url } }
        },
        Rest::Committed { url } => {
            let evt = Event::Navigation {
                status: NavigationStatus::Committed,
                url: Some(url),
                http_status: Some(200),
            };
            let none: Vec<OpaqueHandle> = Vec::new();
            proof {
                assert(none@ =~= Seq::empty());
            }
            let out = event_outgoing(next_id, evt, none);
            Step::Send { out, rest: Rest::Finished }
        },
        Rest::EvalNote => {
            let evt = note(ConsoleLevel::Debug, "EvalScript received".to_owned());
            let none: Vec<OpaqueHandle> = Vec::new();
            proof {
                assert(none@ =~= Seq::empty());
            }
            let out = event_outgoing(next_id, evt, none);
            Step::Send { out, rest: Rest::Finished }
        },
        Rest::Draw { on_request } => {
            if !engine.drawable() {
                return last_step(frameless(next_id, on_request));
            }
            let outcome = if on_request {
                engine.request_draw()
            } else {
                engine.draw_now()
            };
            let ghost reply = frame_reply(outcome);
            proof {
                assert(E::step(*old(engine), draw_call(on_request), *engine, reply));
            }
            let step = match outcome {
                Ok(Some(frame)) => match frame {
                    EngineFrame::SharedMemoryExport { width, height, stride, format, bytes } => {
                        Step::Share {
                            export: Export { width, height, stride, format, bytes },
                            on_request,
                        }
                    },
                    other => match frame_outgoing(next_id, other, handle_passing) {
                        Some(out) => Step::Send { out, rest: Rest::Finished },
                        None => last_step(frameless(next_id, on_request)),
                    },
                },
                _ => last_step(frameless(next_id, on_request)),
            };
            proof {
                assert(drawn(reply, id, on_request, handle_passing, step));
            }
            step
        },
    }
}

fn last_step(o: Option<Outgoing>) -> (step: Step)
    ensures
        ends(step, opt_outgoing(o)),
        step is Send <==> o is Some,
{
    match o {
        Some(out) => Step::Send { out, rest: Rest::Finished },
        None => Step::Finished,
    }
}

/// A possible message.
pub open spec fn opt_outgoing(o: Option<Outgoing>) -> Option<OutgoingView> {
    match o {
        Some(o) => Some(o@),
        None => None,
    }
}

fn frameless(next_id: &mut u64, on_request: bool) -> (o: Option<Outgoing>)
    ensures
        opt_outgoing(o) == no_frame(*old(next_id), on_request),
        *final(next_id) == (if on_request {
            next_after(*old(next_id))
        } else {
            *old(next_id)
        }),
{
    if on_request {
        let evt = note(ConsoleLevel::Info, "Draw requested (no frame produced)".to_owned());
        let none: Vec<OpaqueHandle> = Vec::new();
        proof {
            assert(none@ =~= Seq::empty());
        }
        Some(event_outgoing(next_id, evt, none))
    } else {
        None
    }
}

/// The message after an attempt to place a bitmap in shared memory: the frame under the handle
/// that came back, or that no frame was produced.
pub fn finish_export(
    next_id: &mut u64,
    handle_passing: bool,
    on_request: bool,
    export: &Export,
    handle: Option<OpaqueHandle>,
) -> (o: Option<Outgoing>)
    ensures
        opt_outgoing(o) == export_message(
            *old(next_id),
            handle_passing,
            on_request,
            *export,
            handle,
        ),
        *final(next_id) == (if o is Some {
            next_after(*old(next_id))
        } else {
            *old(next_id)
        }),
{
    match handle {
        Some(fd) => {
            let frame = EngineFrame::SharedMemoryHandle {
                width: export.width,
                height: export.height,
                stride: export.stride,
                format: export.format,
                fd,
                size: export.bytes.len() as u64,
            };
            frame_outgoing(next_id, frame, handle_passing)
        },
        None => frameless(next_id, on_request),
    }
}

/// The id that a response answers.
pub open spec fn reply_target(resp: ResponseView) -> u64 {
    match resp {
        ResponseView::Ack { in_reply_to } => in_reply_to,
        ResponseView::Error { in_reply_to, code, message } => in_reply_to,
        ResponseView::InitAck { in_reply_to, chosen_version, server_name, capabilities } => {
            in_reply_to
        },
        ResponseView::InvokeResult { in_reply_to, ok, data, error } => in_reply_to,
    }
}

/// Every request is answered under the id of its envelope; a command call that brings an id of its
/// own is answered under that one, where calls are served.
pub proof fn answer_carries_request_id<E: Engine, F: Fn(Value) -> CommandResult>(
    session: Session,
    commands: Option<Map<Seq<char>, F>>,
    req: RequestView,
    pre: E,
    post: E,
    resp: ResponseView,
)
    requires
        answers(session, commands, req, pre, post, resp),
    ensures
        reply_target(resp) == (match req {
            RequestView::Invoke { command, payload, request_id } => if commands is Some {
                invoke_id(request_id, session.req_id)
            } else {
                session.req_id
            },
            _ => session.req_id,
        }),
{
}

/// After the response only events follow, each under the next message id and in the version that
/// the server speaks.
pub proof fn only_events_follow<E: Engine>(
    rest: RestView,
    id: u64,
    handle_passing: bool,
    pre: E,
    post: E,
    step: Step,
)
    requires
        resumed(rest, id, handle_passing, pre, post, step),
        step is Send,
    ensures
        step->out@.envelope.message is Event,
        step->out@.envelope.id == id,
        step->out@.envelope.version == PROTOCOL_VERSION,
        step->out@.envelope.flags == 0,
        !handle_passing ==> step->out@.handles.len() == 0,
{
}

/// How many messages a rest can still lead to, at most.
pub open spec fn at_most(rest: RestView) -> nat {
    match rest {
        RestView::Finished => 0,
        RestView::LoadNote { url } => 2,
        _ => 1,
    }
}

/// The message after an attempt to place a bitmap in shared memory.
pub open spec fn export_message(
    id: u64,
    handle_passing: bool,
    on_request: bool,
    export: Export,
    handle: Option<OpaqueHandle>,
) -> Option<OutgoingView> {
    match handle {
        Some(fd) => frame_message(id, export.shared(fd), handle_passing),
        None => no_frame(id, on_request),
    }
}

/// Doing `rest` with the next id `id` sends the messages `sent` and ends with the next id `next`,
/// where every message could be sent; `handle` is what placing a bitmap in shared memory gave.
pub open spec fn follows<E: Engine>(
    rest: RestView,
    id: u64,
    handle_passing: bool,
    handle: Option<OpaqueHandle>,
    pre: E,
    post: E,
    sent: Seq<EnvelopeView>,
    next: u64,
) -> bool
    decreases at_most(rest),
{
    exists|mid: E, step: Step| #[trigger]
        resumed(rest, id, handle_passing, pre, mid, step) && match step {
            Step::Finished => post == mid && sent == Seq::<EnvelopeView>::empty() && next == id,
            Step::Send { out, rest: more } => {
                &&& sent.len() > 0
                &&& sent[0] == out@.envelope
                &&& at_most(more@) < at_most(rest)
                &&& follows(
                    more@,
                    next_after(id),
                    handle_passing,
                    handle,
                    mid,
                    post,
                    sent.skip(1),
                    next,
                )
            },
            Step::Share { export, on_request } => post == mid && match export_message(
                id,
                handle_passing,
                on_request,
                export,
                handle,
            ) {
                Some(out) => sent == seq![out.envelope] && next == next_after(id),
                None => sent == Seq::<EnvelopeView>::empty() && next == id,
            },
        }
}

/// Serving `req` from the next id `id` sends the messages `sent` and ends with the next id `next`,
/// where every message could be sent.
pub open spec fn served<E: Engine, F: Fn(Value) -> CommandResult>(
    session: Session,
    commands: Option<Map<Seq<char>, F>>,
    req: RequestView,
    id: u64,
    handle: Option<OpaqueHandle>,
    pre: E,
    post: E,
    sent: Seq<EnvelopeView>,
    next: u64,
) -> bool {
    exists|mid: E, resp: ResponseView| #[trigger]
        answers(session, commands, req, pre, mid, resp) && sent.len() > 0 && sent[0] == sealed(
            id,
            MessageView::Response(resp),
        ) && follows(
            rest_of(req),
            next_after(id),
            session.handle_passing,
            handle,
            mid,
            post,
            sent.skip(1),
            next,
        )
}

/// Every request is served by one response, first, under the id that the request asks for, and
/// then by events alone, whatever the engine replied.  All messages are in the version that the
/// server speaks, without flags, and their ids follow each other.
pub proof fn one_response_then_events<E: Engine, F: Fn(Value) -> CommandResult>(
    session: Session,
    commands: Option<Map<Seq<char>, F>>,
    req: RequestView,
    id: u64,
    handle: Option<OpaqueHandle>,
    pre: E,
    post: E,
    sent: Seq<EnvelopeView>,
    next: u64,
)
    requires
        served(session, commands, req, id, handle, pre, post, sent, next),
        id + 3 <= u64::MAX,
    ensures
        1 <= sent.len() <= 3,
        next == id + sent.len(),
        sent[0].message is Response,
        reply_target(sent[0].message->Response_0) == (match req {
            RequestView::Invoke { command, payload, request_id } => if commands is Some {
                invoke_id(request_id, session.req_id)
            } else {
                session.req_id
            },
            _ => session.req_id,
        }),
        forall|i: int| 1 <= i < sent.len() ==> (#[trigger] sent[i]).message is Event,
        forall|i: int|
            0 <= i < sent.len() ==> (#[trigger] sent[i]).id == id + i && sent[i].version
                == PROTOCOL_VERSION && sent[i].flags == 0,
{
    let (mid, resp) = choose|mid: E, resp: ResponseView| #[trigger]
        answers(session, commands, req, pre, mid, resp) && sent.len() > 0 && sent[0] == sealed(
            id,
            MessageView::Response(resp),
        ) && follows(
            rest_of(req),
            next_after(id),
            session.handle_passing,
            handle,
            mid,
            post,
            sent.skip(1),
            next,
        );
    answer_carries_request_id(session, commands, req, pre, mid, resp);
    let more = sent.skip(1);
    rest_is_events(
        rest_of(req),
        next_after(id),
        session.handle_passing,
        handle,
        mid,
        post,
        more,
        next,
    );
    assert forall|i: int| 1 <= i < sent.len() implies (#[trigger] sent[i]).message is Event
        && sent[i].id == id + i && sent[i].version == PROTOCOL_VERSION && sent[i].flags == 0 by {
        assert(sent[i] == more[i - 1]);
    }
}

proof fn rest_is_events<E: Engine>(
    rest: RestView,
    id: u64,
    handle_passing: bool,
    handle: Option<OpaqueHandle>,
    pre: E,
    post: E,
    sent: Seq<EnvelopeView>,
    next: u64,
)
    requires
        follows(rest, id, handle_passing, handle, pre, post, sent, next),
        id + at_most(rest) <= u64::MAX,
    ensures
        sent.len() <= at_most(rest),
        next == id + sent.len(),
        forall|i: int|
            0 <= i < sent.len() ==> (#[trigger] sent[i]).message is Event && sent[i].id == id + i
                && sent[i].version == PROTOCOL_VERSION && sent[i].flags == 0,
    decreases at_most(rest),
{
    let (mid, step) = choose|mid: E, step: Step| #[trigger]
        resumed(rest, id, handle_passing, pre, mid, step) && match step {
            Step::Finished => post == mid && sent == Seq::<EnvelopeView>::empty() && next == id,
            Step::Send { out, rest: more } => {
                &&& sent.len() > 0
                &&& sent[0] == out@.envelope
                &&& at_most(more@) < at_most(rest)
                &&& follows(
                    more@,
                    next_after(id),
                    handle_passing,
                    handle,
                    mid,
                    post,
                    sent.skip(1),
                    next,
                )
            },
            Step::Share { export, on_request } => post == mid && match export_message(
                id,
                handle_passing,
                on_request,
                export,
                handle,
            ) {
                Some(out) => sent == seq![out.envelope] && next == next_after(id),
                None => sent == Seq::<EnvelopeView>::empty() && next == id,
            },
        };
    match step {
        Step::Finished => {},
        Step::Send { out, rest: more } => {
            only_events_follow(rest, id, handle_passing, pre, mid, step);
            let tail = sent.skip(1);
            rest_is_events(
                more@,
                next_after(id),
                handle_passing,
                handle,
                mid,
                post,
                tail,
                next,
            );
            assert forall|i: int| 0 <= i < sent.len() implies (#[trigger] sent[i]).message is Event
                && sent[i].id == id + i && sent[i].version == PROTOCOL_VERSION && sent[i].flags
                == 0 by {
                if i > 0 {
                    assert(sent[i] == tail[i - 1]);
                }
            }
        },
        Step::Share { export, on_request } => {},
    }
}

/// A handshake that succeeds settles on a version that both sides speak, and grants handle passing
/// and shared frames only where the transport carries handles.
pub proof fn handshake_is_sound<E: Engine, F: Fn(Value) -> CommandResult>(
    session: Session,
    commands: Option<Map<Seq<char>, F>>,
    req: RequestView,
    pre: E,
    post: E,
    resp: ResponseView,
)
    requires
        req is Init,
        answers(session, commands, req, pre, post, resp),
    ensures
        resp is InitAck || resp is Error,
        resp is InitAck ==> {
            &&& resp->chosen_version <= PROTOCOL_MAX_VERSION
            &&& resp->chosen_version <= session.peer_version
            &&& req->supported.min <= resp->chosen_version <= req->supported.max
            &&& resp->capabilities.fd_passing ==> session.handle_passing
            &&& resp->capabilities.zero_copy_frames ==> session.handle_passing
            &&& resp->server_name == session.server_name
        },
        resp is Error ==> resp->code == ErrorCode::Unsupported && post == pre,
{
}

/// A load is answered by three messages: the acknowledgement, the note that the load was
/// requested, and the committed navigation of that URL, under increasing ids.
pub proof fn load_is_reported<E: Engine, F: Fn(Value) -> CommandResult>(
    session: Session,
    commands: Option<Map<Seq<char>, F>>,
    url: Seq<char>,
    id: u64,
    s0: E,
    s1: E,
    s2: E,
    s3: E,
    resp: ResponseView,
    note: Step,
    committed: Step,
)
    requires
        answers(session, commands, RequestView::Load { url }, s0, s1, resp),
        resumed(
            rest_of(RequestView::Load { url }),
            next_after(id),
            session.handle_passing,
            s1,
            s2,
            note,
        ),
        resumed(
            note->rest@,
            next_after(next_after(id)),
            session.handle_passing,
            s2,
            s3,
            committed,
        ),
    ensures
        resp == (ResponseView::Ack { in_reply_to: session.req_id }),
        made(s0, EngineCall::Load(url), s1),
        s3 == s1,
        note is Send,
        note->out@.envelope == sealed(
            next_after(id),
            MessageView::Event(server_note(ConsoleLevel::Info, "Load requested: "@ + url)),
        ),
        committed is Send,
        committed->out@.envelope == sealed(
            next_after(next_after(id)),
            MessageView::Event(
                EventView::Navigation {
                    status: NavigationStatus::Committed,
                    url: Some(url),
                    http_status: Some(200),
                },
            ),
        ),
        committed->rest@ is Finished,
{
}

/// Message ids grow with every message until they are exhausted.
pub proof fn ids_increase(id: u64)
    ensures
        id < u64::MAX ==> next_after(id) > id,
        id == u64::MAX ==> next_after(id) == id,
{
}

/// The demonstration engine answers every draw with its gradient: as an inline PNG file, or in
/// shared memory where that was negotiated.  A gradient that the encoder refuses, or that is too
/// large for this machine, is no frame.
pub proof fn demo_draw_gives_gradient(
    id: u64,
    on_request: bool,
    handle_passing: bool,
    pre: DemoEngine,
    post: DemoEngine,
    step: Step,
)
    requires
        resumed(RestView::Draw { on_request }, id, handle_passing, pre, post, step),
    ensures
        ({
            let s = pre@.sized();
            let bytes = crate::engine::gradient(s.width as nat, s.height as nat);
            if !pre.can_draw() {
                ends(step, no_frame(id, on_request))
            } else if pre@.zero_copy && pre@.prefer_zero_copy {
                step is Share && step->export.bytes@ == bytes
            } else {
                match png_file(s.width, s.height, bytes) {
                    Some(data) => step is Send && step->out@.envelope.message
                        == MessageView::Event(
                        EventView::FrameReady {
                            frame_id: id,
                            descriptor: FrameView::CompressedImage {
                                width: s.width,
                                height: s.height,
                                format: CompressedFormat::Png,
                                payload: PayloadView::Inline(data),
                            },
                        },
                    ),
                    None => ends(step, no_frame(id, on_request)),
                }
            }
        }),
{
    let s = pre@.sized();
    let bytes = crate::engine::gradient(s.width as nat, s.height as nat);
    assert(4 * (s.width as nat) * (s.height as nat) == 4 * s.width * s.height);
    assert(rgba(PixelFormat::Rgba8888, bytes) =~= bytes);
    if pre.can_draw() {
        assert(4 * s.width * s.height == s.stride * (s.height - 1) + 4 * s.width)
            by (nonlinear_arith)
            requires
                s.stride == 4 * s.width,
        ;
        tight_rows_stay(s.width, s.height, s.stride, bytes);
    }
}

/// A frame that the demonstration engine shares is announced with its geometry, its size in bytes,
/// a token that is not zero, and exactly the handle of its memory.
pub proof fn shared_demo_frame_is_described(
    id: u64,
    on_request: bool,
    pre: DemoEngine,
    post: DemoEngine,
    step: Step,
    fd: OpaqueHandle,
)
    requires
        pre.can_draw(),
        pre@.zero_copy,
        pre@.prefer_zero_copy,
        resumed(RestView::Draw { on_request }, id, true, pre, post, step),
    ensures
        step is Share,
        ({
            let s = pre@.sized();
            let out = frame_message(id, step->export.shared(fd), true)->0;
            let size = s.width * 4 * s.height;
            &&& frame_message(id, step->export.shared(fd), true) is Some
            &&& out.handles == seq![fd]
            &&& out.envelope.message == MessageView::Event(
                EventView::FrameReady {
                    frame_id: id,
                    descriptor: FrameView::SharedMemoryImage {
                        width: s.width,
                        height: s.height,
                        stride: (s.width * 4) as u32,
                        format: PixelFormat::Rgba8888,
                        shm: HandleToken(next_after(id)),
                        size: size as u64,
                    },
                },
            )
            &&& next_after(id) > 0
        }),
{
    let s = pre@.sized();
    assert(4 * (s.width as nat) * (s.height as nat) == s.width * 4 * s.height) by (nonlinear_arith);
}

/// What a received envelope is to the server.
pub enum Incoming {
    Request { version: u16, id: u64, request: Request },
    /// Responses and events of a client are ignored.
    Ignored,
}

/// Tells what a received envelope is to the server.
pub fn incoming(env: Envelope) -> (r: Incoming)
    ensures
        match env.message {
            Message::Request(req) => r == (Incoming::Request {
                version: env.version,
                id: env.id,
                request: req,
            }),
            _ => r is Ignored,
        },
{
    match env.message {
        Message::Request(request) => Incoming::Request {
            version: env.version,
            id: env.id,
            request,
        },
        Message::Response(_) => Incoming::Ignored,
        Message::Event(_) => Incoming::Ignored,
    }
}

/// What reading from the client gave.
pub enum Received {
    /// Nothing: reading failed, or the client is gone.
    Failed,
    /// A frame that is no message.
    Undecodable,
    Message(Envelope),
}

/// What the server does next.
pub enum ServerStep {
    /// Close the transport and end.
    Stop,
    /// Read on.
    Skip,
    /// Serve a request, then read on.
    Serve { version: u16, id: u64, request: Request },
}

/// Decides what follows a read: the server ends when reading fails, serves requests, and passes
/// over everything else.
pub fn after_read(r: Received) -> (next: ServerStep)
    ensures
        match r {
            Received::Failed => next is Stop,
            Received::Undecodable => next is Skip,
            Received::Message(env) => match env.message {
                Message::Request(request) => next == (ServerStep::Serve {
                    version: env.version,
                    id: env.id,
                    request,
                }),
                _ => next is Skip,
            },
        },
{
    match r {
        Received::Failed => ServerStep::Stop,
        Received::Undecodable => ServerStep::Skip,
        Received::Message(env) => match incoming(env) {
            Incoming::Request { version, id, request } => ServerStep::Serve {
                version,
                id,
                request,
            },
            Incoming::Ignored => ServerStep::Skip,
        },
    }
}

/// The name of the engine to run, from the variable `VERSOVIEW_ENGINE` or else from
/// `PHOTON_ENGINE`.
pub fn engine_name(versoview: Option<String>, photon: Option<String>) -> (name: Option<String>)
    ensures
        name == (if versoview is Some {
            versoview
        } else {
            photon
        }),
{
    match versoview {
        Some(name) => Some(name),
        None => photon,
    }
}

/// The engines that a server can run.
#[derive(Debug, Clone, Copy, PartialEq, Eq, Structural)]
pub enum EngineKind {
    Servo,
    Demo,
    Dioxus,
}

/// The engine of a name: Servo unless another is named; an engine that is not built in falls back
/// to Servo.
pub open spec fn engine_named(name: Option<Seq<char>>, dioxus_available: bool) -> EngineKind {
    match name {
        None => EngineKind::Servo,
        Some(n) => if same_ignoring_case(n, "demo"@) {
            EngineKind::Demo
        } else if same_ignoring_case(n, "dioxus"@) && dioxus_available {
            EngineKind::Dioxus
        } else {
            EngineKind::Servo
        },
    }
}

/// Chooses the engine by name.
pub fn choose_engine(name: &Option<String>, dioxus_available: bool) -> (k: EngineKind)
    ensures
        k == engine_named(opt_view(*name), dioxus_available),
{
    match name {
        None => EngineKind::Servo,
        Some(n) => {
            if eq_ignore_case(n.as_str(), "demo") {
                EngineKind::Demo
            } else if eq_ignore_case(n.as_str(), "dioxus") && dioxus_available {
                EngineKind::Dioxus
            } else {
                EngineKind::Servo
            }
        },
    }
}

/// A path together with whether something is there.
#[derive(Debug, Clone)]
pub struct Candidate {
    pub path: String,
    pub exists: bool,
}

/// Whether a candidate is there.
pub open spec fn present(c: Option<Candidate>) -> bool {
    c is Some && c->0.exists
}

/// What the pointer files of one staging slot lead to: that of the current build, and that of the
/// build that the manifest names.
pub struct SlotPointers {
    pub current: Option<Candidate>,
    pub latest: Option<Candidate>,
}

/// The first slot with a binary that is there; its current build comes before the manifest's.
pub open spec fn first_in_slots(slots: Seq<SlotPointers>) -> Option<Seq<char>>
    decreases slots.len(),
{
    if slots.len() == 0 {
        None
    } else if present(slots[0].current) {
        Some(slots[0].current->0.path@)
    } else if present(slots[0].latest) {
        Some(slots[0].latest->0.path@)
    } else {
        first_in_slots(slots.drop_first())
    }
}

/// The engine binary to use: the command line, then the environment, then the pointer file of the
/// environment, then the staging slots; whatever is not there is passed over.
pub open spec fn discovered(
    cli: Option<Candidate>,
    env: Option<Candidate>,
    pointer: Option<Candidate>,
    slots: Seq<SlotPointers>,
) -> Option<Seq<char>> {
    if present(cli) {
        Some(cli->0.path@)
    } else if present(env) {
        Some(env->0.path@)
    } else if present(pointer) {
        Some(pointer->0.path@)
    } else {
        first_in_slots(slots)
    }
}

fn there(c: &Option<Candidate>) -> (r: Option<String>)
    ensures
        present(*c) ==> r is Some && r->0@ == c->0.path@,
        !present(*c) ==> r is None,
{
    match c {
        Some(c) => {
            if c.exists {
                Some(c.path.clone())
            } else {
                None
            }
        },
        None => None,
    }
}

/// Chooses the engine binary.
pub fn discover_servo(
    cli: &Option<Candidate>,
    env: &Option<Candidate>,
    pointer: &Option<Candidate>,
    slots: &Vec<SlotPointers>,
) -> (r: Option<String>)
    ensures
        opt_view(r) == discovered(*cli, *env, *pointer, slots@),
{
    let direct = there(cli);
    if direct.is_some() {
        return direct;
    }
    let direct = there(env);
    if direct.is_some() {
        return direct;
    }
    let direct = there(pointer);
    if direct.is_some() {
        return direct;
    }
    let mut i: usize = 0;
    proof {
        assert(slots@.skip(0) =~= slots@);
    }
    while i < slots.len()
        invariant
            i <= slots.len(),
            first_in_slots(slots@) == first_in_slots(slots@.skip(i as int)),
            !present(*cli),
            !present(*env),
            !present(*pointer),
        decreases slots.len() - i,
    {
        proof {
            assert(slots@.skip(i as int)[0] == slots@[i as int]);
            assert(slots@.skip(i as int).drop_first() =~= slots@.skip(i + 1));
        }
        let found = there(&slots[i].current);
        if found.is_some() {
            return found;
        }
        let found = there(&slots[i].latest);
        if found.is_some() {
            return found;
        }
        i += 1;
    }
    None
}

/// The path that a pointer file holds.
pub fn pointer_target(contents: &str) -> (r: String)
    ensures
        r@ == trim(contents@),
{
    trimmed(contents)
}

/// How a client is reached.
#[derive(Debug, Clone, PartialEq, Eq)]
pub enum TransportMode {
    Stdio,
    UnixSocket(String),
}

/// Chooses how the client is reached: over the socket that was asked for, where sockets are
/// supported, else over the standard streams.
pub fn select_transport(socket: Option<String>, sockets_supported: bool) -> (m: TransportMode)
    ensures
        m == (match socket {
            Some(path) => if sockets_supported {
                TransportMode::UnixSocket(path)
            } else {
                TransportMode::Stdio
            },
            None => TransportMode::Stdio,
        }),
{
    match socket {
        Some(path) => {
            if sockets_supported {
                TransportMode::UnixSocket(path)
            } else {
                TransportMode::Stdio
            }
        },
        None => TransportMode::Stdio,
    }
}

/// The command `hello` gives its payload back.
pub fn hello(payload: Value) -> (r: CommandResult)
    ensures
        r == Ok::<Value, AdapterError>(payload),
{
    Ok(payload)
}

} // verus!
