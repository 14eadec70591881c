//! How a render server answers, and what it sends afterwards.
use vstd::prelude::*;
use serde_json::Value;
use crate::engine::{DemoEngine, Engine, EngineCall, EngineFrame, EngineReply};
use crate::ipc_protocol::{
    CompressedFormat, ConsoleLevel, Envelope, Event, FrameDescriptor, HandleToken, Message,
    NavigationStatus, PixelFormat, Request, Response, VersionRange, PROTOCOL_MAX_VERSION,
    PROTOCOL_VERSION,
};
use crate::ipc_transport::OpaqueHandle;
use crate::json::{json_contents, json_encode, JsonContents};
use crate::laws::hosting::{answers_to, ends_with};
use crate::laws::rendering::{is_gradient, same_letters};
use crate::laws::{lists_agree, same_list, same_option};
use crate::png::png_file;
use crate::server::{
    after_read, choose_engine, describe_frame, describe_png, discover_servo, engine_name,
    finish_export, handle_request, hello, incoming, level_to_str, map_proto_event_to_adapter,
    resume_request, select_transport, status_to_str, supports_version, take_id, Candidate,
    EngineKind, Export, Incoming, Outgoing, Received, Rest, ServerStep, SlotPointers, Step,
    TransportMode,
};
use crate::tauri_ipc_adapter::{CommandResult, ServedCommands};

verus! {

/// A version is supported where it lies in the range, ends included.
pub proof fn version_lies_in_its_range(range: VersionRange, v: u16, b: bool)
    requires
        call_ensures(supports_version, (range, v), b),
    ensures
        b <==> range.min <= v && v <= range.max,
{
}

/// Ids are given out one by one and stay at the last.
pub proof fn ids_are_given_out_one_by_one(next: &mut u64, id: u64)
    requires
        call_ensures(take_id, (next,), id),
    ensures
        id == *old(next),
        *old(next) < u64::MAX ==> *final(next) == *old(next) + 1,
        *old(next) == u64::MAX ==> *final(next) == u64::MAX,
{
}

/// The one response comes under the next id, in the version that is spoken, without flags, and
/// under the id of the request; a command call that brings its own id is answered under that.
pub open spec fn is_answer(env: Envelope, next: u64, req_id: u64, req: Request, served: bool) -> bool {
    &&& env.id == next
    &&& env.version == PROTOCOL_VERSION
    &&& env.flags == 0
    &&& env.message is Response
    &&& req is Invoke && served && req->Invoke_request_id is Some ==> answers_to(
        env.message->Response_0,
        req->Invoke_request_id->0,
    )
    &&& !(req is Invoke && served && req->Invoke_request_id is Some) ==> answers_to(
        env.message->Response_0,
        req_id,
    )
}

/// Every request is answered once, in the order of ids, and all but handshakes and command calls
/// are simply acknowledged.
pub proof fn every_request_is_answered<E: Engine, F: Fn(Value) -> CommandResult>(
    engine: &mut E,
    commands: &mut Option<ServedCommands<F>>,
    next_id: &mut u64,
    server_name: &str,
    handle_passing: bool,
    peer_version: u16,
    req_id: u64,
    req: Request,
    r: (Envelope, Rest),
)
    requires
        call_ensures(
            handle_request::<E, F>,
            (
                engine,
                commands,
                next_id,
                server_name,
                handle_passing,
                peer_version,
                req_id,
                req,
            ),
            r,
        ),
    ensures
        is_answer(r.0, *old(next_id), req_id, req, *old(commands) is Some),
        *old(next_id) < u64::MAX ==> *final(next_id) == *old(next_id) + 1,
        !(req is Init) && !(req is Invoke) ==> r.0.message->Response_0 is Ack,
        req is Invoke ==> r.0.message->Response_0 is InvokeResult,
        req is Init ==> r.0.message->Response_0 is InitAck || r.0.message->Response_0 is Error,
        req is Load ==> r.1 is LoadNote && r.1->LoadNote_url@ == req->url@,
        req is EvalScript ==> r.1 is EvalNote,
        req is RequestDraw ==> r.1 is Draw && r.1->on_request,
        req is DrawNow ==> r.1 is Draw && !r.1->on_request,
        !(req is Load || req is EvalScript || req is RequestDraw || req is DrawNow) ==> r.1
            is Finished,
{
}

/// A request reaches the engine as what it is, with the values that it carries; draws, command
/// calls and a shutdown leave the engine as it was.
pub proof fn request_reaches_the_engine<E: Engine, F: Fn(Value) -> CommandResult>(
    engine: &mut E,
    commands: &mut Option<ServedCommands<F>>,
    next_id: &mut u64,
    server_name: &str,
    handle_passing: bool,
    peer_version: u16,
    req_id: u64,
    req: Request,
    r: (Envelope, Rest),
)
    requires
        call_ensures(
            handle_request::<E, F>,
            (
                engine,
                commands,
                next_id,
                server_name,
                handle_passing,
                peer_version,
                req_id,
                req,
            ),
            r,
        ),
    ensures
        req is Load ==> exists|reply: EngineReply| #[trigger]
            E::step(*old(engine), EngineCall::Load(req->url@), *final(engine), reply),
        req is EvalScript ==> exists|reply: EngineReply| #[trigger]
            E::step(*old(engine), EngineCall::EvalScript(req->source@), *final(engine), reply),
        req is Resize ==> exists|reply: EngineReply| #[trigger]
            E::step(
                *old(engine),
                EngineCall::Resize(req->Resize_width, req->Resize_height),
                *final(engine),
                reply,
            ),
        req is BindSurface ==> exists|reply: EngineReply| #[trigger]
            E::step(*old(engine), EngineCall::BindSurface(req->surface), *final(engine), reply),
        req is InputEvent ==> exists|events: Seq<crate::ipc_protocol::InputEventView>, reply: EngineReply|
            #[trigger]
            E::step(*old(engine), EngineCall::InputEvents(events), *final(engine), reply)
                && events.len() == req->events@.len() && forall|i: int|
                0 <= i < events.len() ==> #[trigger] events[i] == req->events@[i]@,
        req is RequestDraw || req is DrawNow || req is Shutdown || req is Invoke ==> *final(engine)
            == *old(engine),
        req is Init && r.0.message->Response_0 is Error ==> *final(engine) == *old(engine),
{
    if req is InputEvent {
        let events = crate::ipc_protocol::event_views(req->events@);
        let reply = choose|reply: EngineReply| #[trigger]
            E::step(*old(engine), EngineCall::InputEvents(events), *final(engine), reply);
        assert(E::step(*old(engine), EngineCall::InputEvents(events), *final(engine), reply));
    }
}

/// A handshake is taken exactly where the version of the peer, or the newest that the server speaks
/// if that is older, lies in the range of the client; the answer names that version and the server,
/// and grants handles and shared frames only where the transport carries handles.
pub proof fn handshake_settles_version_and_name<E: Engine, F: Fn(Value) -> CommandResult>(
    engine: &mut E,
    commands: &mut Option<ServedCommands<F>>,
    next_id: &mut u64,
    server_name: &str,
    handle_passing: bool,
    peer_version: u16,
    req_id: u64,
    req: Request,
    r: (Envelope, Rest),
)
    requires
        call_ensures(
            handle_request::<E, F>,
            (
                engine,
                commands,
                next_id,
                server_name,
                handle_passing,
                peer_version,
                req_id,
                req,
            ),
            r,
        ),
        req is Init,
    ensures
        ({
            let resp = r.0.message->Response_0;
            let spoken = if peer_version < PROTOCOL_MAX_VERSION {
                peer_version
            } else {
                PROTOCOL_MAX_VERSION
            };
            &&& resp is InitAck <==> req->supported.min <= spoken && spoken <= req->supported.max
            &&& resp is InitAck ==> {
                &&& resp->chosen_version == spoken
                &&& resp->server_name@ == server_name@
                &&& !handle_passing ==> !resp->capabilities.fd_passing
                    && !resp->capabilities.zero_copy_frames
                &&& resp->capabilities.extra@.len() == 0
            }
            &&& !(resp is InitAck) ==> resp is Error && resp->code is Unsupported
        }),
{
    let caps = r.0.message->Response_0->capabilities;
    assert(r.0.message->Response_0 is InitAck ==> caps@.extra.len() == caps.extra@.len());
}

/// A handshake that is taken carries the configuration of the client through to the engine, setting
/// by setting and script by script, and reports what the engine can do.
pub proof fn handshake_carries_the_configuration<F: Fn(Value) -> CommandResult>(
    engine: &mut DemoEngine,
    commands: &mut Option<ServedCommands<F>>,
    next_id: &mut u64,
    server_name: &str,
    handle_passing: bool,
    peer_version: u16,
    req_id: u64,
    req: Request,
    r: (Envelope, Rest),
)
    requires
        call_ensures(
            handle_request::<DemoEngine, F>,
            (
                engine,
                commands,
                next_id,
                server_name,
                handle_passing,
                peer_version,
                req_id,
                req,
            ),
            r,
        ),
        req is Init,
        r.0.message->Response_0 is InitAck,
    ensures
        same_list(final(engine).init_scripts@, req->config.init_scripts@),
        same_option(final(engine).user_agent, req->config.user_agent),
        final(engine).devtools_port_cfg == req->config.devtools_port,
        final(engine).resources_dir is Some <==> req->config.resources_dir is Some,
        final(engine).resources_dir is Some ==> final(engine).resources_dir->0@ == (
        req->config.resources_dir->0).0@,
        final(engine).prefer_zero_copy == handle_passing,
        final(engine).width == old(engine).width && final(engine).height == old(engine).height,
        r.0.message->Response_0->capabilities.fd_passing <==> handle_passing && old(
            engine).zero_copy,
        r.0.message->Response_0->capabilities.zero_copy_frames <==> handle_passing && old(
            engine).zero_copy,
        r.0.message->Response_0->capabilities.compressed_frames,
        r.0.message->Response_0->capabilities.supported_compressed@ == seq![CompressedFormat::Png],
{
    lists_agree(final(engine).init_scripts@, req->config.init_scripts@);
}

/// The client is told what the engine said that it can do, each ability under its own name; passing
/// handles and sharing frames need a transport that carries handles too.  Of an engine that failed
/// nothing is told.
pub open spec fn tells_capabilities(
    caps: crate::ipc_protocol::Capabilities,
    reply: EngineReply,
    handle_passing: bool,
) -> bool {
    match reply {
        EngineReply::Capabilities(c) => {
            &&& caps.fd_passing == (handle_passing && c.fd_passing)
            &&& caps.zero_copy_frames == (handle_passing && c.zero_copy_frames)
            &&& caps.compressed_frames == c.compressed_frames
            &&& caps.supported_compressed@ == c.supported_compressed
        },
        _ => !caps.fd_passing && !caps.zero_copy_frames && !caps.compressed_frames
            && caps.supported_compressed@.len() == 0,
    }
}

/// The same of every engine: what it is set up with holds the scripts, the agent, the port and the
/// directory of the client, and prefers sharing exactly where the transport carries handles; what
/// it can do is told to the client.
pub proof fn every_engine_gets_the_configuration<E: Engine, F: Fn(Value) -> CommandResult>(
    engine: &mut E,
    commands: &mut Option<ServedCommands<F>>,
    next_id: &mut u64,
    server_name: &str,
    handle_passing: bool,
    peer_version: u16,
    req_id: u64,
    req: Request,
    r: (Envelope, Rest),
)
    requires
        call_ensures(
            handle_request::<E, F>,
            (
                engine,
                commands,
                next_id,
                server_name,
                handle_passing,
                peer_version,
                req_id,
                req,
            ),
            r,
        ),
        req is Init,
        r.0.message->Response_0 is InitAck,
    ensures
        exists|init: crate::engine::EngineInitView, reply: EngineReply| #[trigger]
            E::step(*old(engine), EngineCall::Init(init), *final(engine), reply) && {
                &&& init.init_scripts.len() == req->config.init_scripts@.len()
                &&& forall|i: int|
                    0 <= i < init.init_scripts.len() ==> #[trigger] init.init_scripts[i]
                        == req->config.init_scripts@[i]@
                &&& init.user_agent is Some <==> req->config.user_agent is Some
                &&& init.user_agent is Some ==> init.user_agent->0 == req->config.user_agent->0@
                &&& init.devtools_port == req->config.devtools_port
                &&& init.resources_dir is Some <==> req->config.resources_dir is Some
                &&& init.resources_dir is Some ==> init.resources_dir->0 == (
                req->config.resources_dir->0).0@
                &&& init.prefer_zero_copy == handle_passing
                &&& tells_capabilities(r.0.message->Response_0->capabilities, reply, handle_passing)
            },
{
    let config = req->config;
    let init = crate::server::engine_init(config@, handle_passing);
    let caps = r.0.message->Response_0->capabilities;
    let reply = choose|reply: EngineReply| #[trigger]
        E::step(*old(engine), EngineCall::Init(init), *final(engine), reply) && caps@
            == crate::server::negotiated(crate::server::reported(reply), handle_passing);
    assert(caps@.supported_compressed == caps.supported_compressed@);
    assert(config@.init_scripts.len() == config.init_scripts@.len());
    assert(E::step(*old(engine), EngineCall::Init(init), *final(engine), reply));
}

/// A command call is answered with what its handler made of the payload, or that there is none; the
/// answer is a result or an error, never both.
pub proof fn command_call_is_answered<E: Engine, F: Fn(Value) -> CommandResult>(
    engine: &mut E,
    commands: &mut Option<ServedCommands<F>>,
    next_id: &mut u64,
    server_name: &str,
    handle_passing: bool,
    peer_version: u16,
    req_id: u64,
    req: Request,
    r: (Envelope, Rest),
)
    requires
        call_ensures(
            handle_request::<E, F>,
            (
                engine,
                commands,
                next_id,
                server_name,
                handle_passing,
                peer_version,
                req_id,
                req,
            ),
            r,
        ),
        req is Invoke,
    ensures
        ({
            let resp = r.0.message->Response_0;
            &&& resp is InvokeResult
            &&& resp->ok <==> resp->error is None
            &&& !resp->ok ==> resp->data is None
            &&& *old(commands) is None ==> !resp->ok
            &&& *old(commands) is Some && !old(commands)->0@.contains_key(req->command@)
                ==> !resp->ok && ends_with(resp->error->0@, req->command@)
            &&& *old(commands) is Some && old(commands)->0@.contains_key(req->command@)
                ==> exists|v: Value, out: CommandResult| #[trigger]
                answered_by(old(commands)->0@[req->command@], v, out) && (match out {
                    Ok(value) => resp->ok && (resp->data is Some ==> Some(resp->data->0@)
                        == json_encode(json_contents(value))),
                    Err(_) => !resp->ok,
                })
        }),
{
    if *old(commands) is Some {
        let c = old(commands)->0@;
        let resp = r.0.message->Response_0;
        let id = crate::server::invoke_id(req->Invoke_request_id, req_id);
        let (v, out) = choose|v: Value, out: CommandResult| #[trigger]
            crate::tauri_ipc_adapter::call_outcome(c, req->command@, v, out) && json_contents(v)
                == crate::json::payload_contents(req->payload@) && resp@
                == crate::server::invoke_result(id, out);
        if c.contains_key(req->command@) {
            assert(answered_by(c[req->command@], v, out));
        } else {
            let text = resp->error->0@;
            assert(text == out->Err_0.reply());
            assert(text.skip(text.len() - req->command@.len()) =~= req->command@);
        }
    }
}

/// A handler, given a payload, answered.
pub open spec fn answered_by<F: Fn(Value) -> CommandResult>(
    handler: F,
    payload: Value,
    out: CommandResult,
) -> bool {
    call_ensures(handler, (payload,), out)
}

/// What is sent after the answer: one event under the next id, in the version that is spoken.
pub open spec fn sends_event(step: Step, next: u64) -> bool {
    &&& step is Send
    &&& step->out.envelope.id == next
    &&& step->out.envelope.version == PROTOCOL_VERSION
    &&& step->out.envelope.flags == 0
    &&& step->out.envelope.message is Event
}

/// The event of a step.
pub open spec fn event_of(step: Step) -> Event {
    step->out.envelope.message->Event_0
}

/// A load is followed by a line that ends with its URL, and then by its committed navigation.
pub proof fn load_is_followed_by_its_events<E: Engine>(
    engine: &mut E,
    next_id: &mut u64,
    handle_passing: bool,
    rest: Rest,
    step: Step,
)
    requires
        call_ensures(resume_request::<E>, (engine, next_id, handle_passing, rest), step),
    ensures
        rest is Finished ==> step is Finished && *final(next_id) == *old(next_id),
        rest is LoadNote ==> {
            &&& sends_event(step, *old(next_id))
            &&& event_of(step) is ConsoleMessage
            &&& event_of(step)->level is Info
            &&& ends_with(event_of(step)->message@, rest->LoadNote_url@)
            &&& step->rest is Committed
            &&& step->rest->Committed_url@ == rest->LoadNote_url@
        },
        rest is Committed ==> {
            &&& sends_event(step, *old(next_id))
            &&& event_of(step) is Navigation
            &&& event_of(step)->status is Committed
            &&& event_of(step)->Navigation_url is Some
            &&& event_of(step)->Navigation_url->0@ == rest->Committed_url@
            &&& event_of(step)->http_status == Some(200u16)
            &&& step->rest is Finished
        },
        rest is EvalNote ==> {
            &&& sends_event(step, *old(next_id))
            &&& event_of(step) is ConsoleMessage
            &&& event_of(step)->level is Debug
            &&& step->rest is Finished
        },
        !(rest is Draw) ==> *final(engine) == *old(engine),
        step is Send && *old(next_id) < u64::MAX ==> *final(next_id) == *old(next_id) + 1,
        !(step is Send) ==> *final(next_id) == *old(next_id),
{
    if rest is LoadNote {
        let text = event_of(step)->message@;
        let url = rest->LoadNote_url@;
        assert(text == "Load requested: "@ + url);
        assert(text.skip(text.len() - url.len()) =~= url);
    }
}

/// A draw of the demonstration engine is announced as a PNG file of the gradient at the size of the
/// engine, under the id of the message; where sharing was settled the bitmap is shared instead.
pub proof fn demo_frame_is_announced_at_its_size(
    engine: &mut DemoEngine,
    next_id: &mut u64,
    handle_passing: bool,
    rest: Rest,
    step: Step,
)
    requires
        call_ensures(resume_request::<DemoEngine>, (engine, next_id, handle_passing, rest), step),
        rest is Draw,
        old(engine).can_draw(),
    ensures
        old(engine).zero_copy && old(engine).prefer_zero_copy ==> {
            &&& step is Share
            &&& step->on_request == rest->on_request
            &&& step->export.width == final(engine).width
            &&& step->export.height == final(engine).height
            &&& step->export.stride == 4 * final(engine).width
            &&& step->export.format is Rgba8888
            &&& is_gradient(step->export.bytes@, final(engine).width, final(engine).height)
        },
        !(old(engine).zero_copy && old(engine).prefer_zero_copy) ==> exists|pixels: Seq<u8>| #[trigger]
            is_gradient(pixels, final(engine).width, final(engine).height) && match png_file(
                final(engine).width,
                final(engine).height,
                pixels,
            ) {
                Some(file) => {
                    &&& sends_event(step, *old(next_id))
                    &&& event_of(step) is FrameReady
                    &&& event_of(step)->frame_id == *old(next_id)
                    &&& is_png_descriptor(
                        event_of(step)->descriptor,
                        final(engine).width,
                        final(engine).height,
                        file,
                    )
                    &&& step->out.handles@.len() == 0
                    &&& step->rest is Finished
                },
                None => rest->on_request ==> sends_event(step, *old(next_id)) && event_of(step)
                    is ConsoleMessage,
            },
{
    let (w, h) = (final(engine).width, final(engine).height);
    let pixels = crate::engine::gradient(w as nat, h as nat);
    crate::laws::rendering::gradient_is_gradient(w, h);
    assert(4 * (w as nat) * (h as nat) == 4 * w * h);
    assert(crate::png::rgba(PixelFormat::Rgba8888, pixels) =~= pixels);
    assert(4 * w * h == (4 * w) * (h - 1) + 4 * w) by (nonlinear_arith);
    crate::png::tight_rows_stay(w, h, (4 * w) as u32, pixels);
    assert(is_gradient(pixels, w, h));
}

/// The descriptor is of a PNG file that travels inline.
pub open spec fn is_png_descriptor(d: FrameDescriptor, w: u32, h: u32, file: Seq<u8>) -> bool {
    match d {
        FrameDescriptor::CompressedImage { width, height, format, payload } => width == w && height
            == h && format is Png && payload is Inline && payload->Inline_0@ == file,
        _ => false,
    }
}

/// A draw that gives nothing is reported only where it was scheduled.
pub proof fn draw_without_a_frame_is_reported_if_scheduled<E: Engine>(
    engine: &mut E,
    next_id: &mut u64,
    handle_passing: bool,
    rest: Rest,
    step: Step,
)
    requires
        call_ensures(resume_request::<E>, (engine, next_id, handle_passing, rest), step),
        rest is Draw,
        !old(engine).can_draw(),
    ensures
        *final(engine) == *old(engine),
        rest->on_request ==> sends_event(step, *old(next_id)) && event_of(step) is ConsoleMessage
            && event_of(step)->level is Info && step->rest is Finished,
        !rest->on_request ==> step is Finished,
{
}

/// A frame is described as what it is: with its own size and geometry, its handles beside it, and
/// the token where a handle is spoken of.
pub proof fn frame_is_described_as_it_is(
    frame: EngineFrame,
    token: HandleToken,
    r: Option<(FrameDescriptor, Vec<OpaqueHandle>)>,
)
    requires
        call_ensures(describe_frame, (frame, token), r),
    ensures
        r is Some || frame is SharedMemoryInline,
        match frame {
            EngineFrame::SharedMemoryHandle { width, height, stride, format, fd, size } => {
                let d = (r->0).0;
                &&& d is SharedMemoryImage
                &&& d->SharedMemoryImage_width == width && d->SharedMemoryImage_height == height
                &&& d->SharedMemoryImage_stride == stride && d->SharedMemoryImage_format == format
                &&& d->shm == token && d->size == size
                &&& (r->0).1@ == seq![fd]
            },
            EngineFrame::LinuxDmabuf { width, height, fourcc, modifier, planes, fence } => {
                let d = (r->0).0;
                &&& d is LinuxDmabuf
                &&& d->LinuxDmabuf_width == width && d->LinuxDmabuf_height == height
                &&& d->fourcc == fourcc && d->modifier == modifier
                &&& d->planes@.len() == planes@.len()
                &&& forall|i: int|
                    0 <= i < planes@.len() ==> (#[trigger] d->planes@[i]).offset == planes@[i].offset
                        && d->planes@[i].stride == planes@[i].stride && d->planes@[i].plane_index
                        == planes@[i].plane_index && d->planes@[i].fd == token
                &&& (r->0).1@.len() == planes@.len() + (if fence is Some {
                    1int
                } else {
                    0int
                })
                &&& forall|i: int|
                    0 <= i < planes@.len() ==> #[trigger] (r->0).1@[i] == planes@[i].fd
                &&& fence is Some ==> (r->0).1@.last() == fence->0
            },
            EngineFrame::MacOsIoSurface { width, height, pixel_format, io_surface_id } => {
                let d = (r->0).0;
                &&& d is MacOsIoSurface
                &&& d->MacOsIoSurface_width == width && d->MacOsIoSurface_height == height
                &&& d->pixel_format == pixel_format && d->io_surface == token
                &&& (r->0).1@.len() == 0
            },
            EngineFrame::WindowsDxgiSharedHandle { width, height, dxgi_format, handle_value } => {
                let d = (r->0).0;
                &&& d is WindowsDxgiSharedHandle
                &&& d->WindowsDxgiSharedHandle_width == width
                &&& d->WindowsDxgiSharedHandle_height == height
                &&& d->dxgi_format == dxgi_format && d->handle == token
                &&& (r->0).1@.len() == 1 && (r->0).1@[0] == OpaqueHandle(handle_value)
            },
            EngineFrame::CompressedImage { width, height, format, data } => {
                let d = (r->0).0;
                &&& d is CompressedImage
                &&& d->CompressedImage_width == width && d->CompressedImage_height == height
                &&& d->CompressedImage_format == format
                &&& d->payload is Inline && d->payload->Inline_0@ == data@
                &&& (r->0).1@.len() == 0
            },
            EngineFrame::SharedMemoryInline { width, height, stride, format, bytes } => {
                r is Some ==> {
                    let d = (r->0).0;
                    &&& d is CompressedImage
                    &&& d->CompressedImage_width == width && d->CompressedImage_height == height
                    &&& d->CompressedImage_format is Png && d->payload is Inline
                    &&& (r->0).1@.len() == 0
                }
            },
            EngineFrame::SharedMemoryExport { width, height, stride, format, bytes } => {
                let d = (r->0).0;
                &&& d is SharedMemoryImage
                &&& d->SharedMemoryImage_width == width && d->SharedMemoryImage_height == height
                &&& d->shm == token
            },
        },
{
}

/// A bitmap by value travels as the PNG file that is made of it.
pub proof fn bitmap_travels_as_its_file(
    frame: EngineFrame,
    token: HandleToken,
    r: Option<(FrameDescriptor, Vec<OpaqueHandle>)>,
    whole: bool,
    file: Option<Vec<u8>>,
    w: u32,
    h: u32,
    f: Option<Vec<u8>>,
    d: Option<FrameDescriptor>,
)
    requires
        call_ensures(describe_frame, (frame, token), r),
        frame is SharedMemoryInline,
        call_ensures(
            crate::png::holds_bitmap,
            (
                frame->SharedMemoryInline_width,
                frame->SharedMemoryInline_height,
                frame->SharedMemoryInline_stride,
                frame->SharedMemoryInline_format,
                &frame->SharedMemoryInline_bytes,
            ),
            whole,
        ),
        call_ensures(
            crate::png::encode_bitmap,
            (
                frame->SharedMemoryInline_width,
                frame->SharedMemoryInline_height,
                frame->SharedMemoryInline_stride,
                frame->SharedMemoryInline_format,
                frame->SharedMemoryInline_bytes,
            ),
            file,
        ),
        call_ensures(describe_png, (w, h, f), d),
    ensures
        whole && file is Some ==> r is Some && is_png_descriptor(
            (r->0).0,
            frame->SharedMemoryInline_width,
            frame->SharedMemoryInline_height,
            file->0@,
        ),
        whole && file is None ==> r is None,
        !whole ==> r is Some && is_png_descriptor(
            (r->0).0,
            frame->SharedMemoryInline_width,
            frame->SharedMemoryInline_height,
            frame->SharedMemoryInline_bytes@,
        ),
        d is Some <==> f is Some,
        d is Some ==> is_png_descriptor(d->0, w, h, f->0@),
{
}

/// A bitmap that was placed in shared memory is announced under its handle, with its geometry and
/// its size in bytes, and the handle travels only where the transport carries handles.
pub proof fn shared_bitmap_is_announced(
    next_id: &mut u64,
    handle_passing: bool,
    on_request: bool,
    export: &Export,
    handle: Option<OpaqueHandle>,
    o: Option<Outgoing>,
)
    requires
        call_ensures(finish_export, (next_id, handle_passing, on_request, export, handle), o),
    ensures
        handle is Some ==> {
            let e = o->0.envelope.message->Event_0;
            &&& o is Some
            &&& o->0.envelope.id == *old(next_id)
            &&& o->0.envelope.message is Event && e is FrameReady
            &&& e->frame_id == *old(next_id)
            &&& e->descriptor is SharedMemoryImage
            &&& e->descriptor->SharedMemoryImage_width == export.width
            &&& e->descriptor->SharedMemoryImage_height == export.height
            &&& e->descriptor->SharedMemoryImage_stride == export.stride
            &&& e->descriptor->SharedMemoryImage_format == export.format
            &&& e->descriptor->size == export.bytes@.len()
            &&& *old(next_id) < u64::MAX ==> e->descriptor->shm.0 == *old(next_id) + 1
            &&& handle_passing ==> o->0.handles@ == seq![handle->0]
            &&& !handle_passing ==> o->0.handles@.len() == 0
        },
        handle is None && on_request ==> o is Some && o->0.envelope.message is Event
            && o->0.envelope.message->Event_0 is ConsoleMessage,
        handle is None && !on_request ==> o is None,
        o is Some && *old(next_id) < u64::MAX ==> *final(next_id) == *old(next_id) + 1,
        o is None ==> *final(next_id) == *old(next_id),
{
    assert(export.bytes.len() == export.bytes@.len());
}

/// A text or nothing, as JSON.
pub open spec fn is_text(c: JsonContents, o: Option<String>) -> bool {
    match o {
        Some(s) => c is Text && c->Text_0 == s@,
        None => c is Null,
    }
}

/// A number or nothing, as JSON.
pub open spec fn is_number(c: JsonContents, o: Option<int>) -> bool {
    match o {
        Some(n) => c is Integer && c->Integer_0 == n,
        None => c is Null,
    }
}

/// Web content sees a navigation, a console line and an opened port with every value under its own
/// name; frames are not published.
pub proof fn events_are_published_value_by_value(evt: &Event, r: Option<(String, Value)>)
    requires
        call_ensures(map_proto_event_to_adapter, (evt,), r),
    ensures
        evt is FrameReady <==> r is None,
        evt is Navigation ==> {
            let c = json_contents((r->0).1);
            &&& (r->0).0@ == "navigation"@
            &&& c is Object
            &&& is_text(c->Object_0["url"@], evt->Navigation_url)
            &&& is_number(
                c->Object_0["http_status"@],
                match evt->http_status {
                    Some(n) => Some(n as int),
                    None => None,
                },
            )
            &&& c->Object_0["status"@] is Text
            &&& c->Object_0["status"@]->Text_0 == (match evt->status {
                NavigationStatus::Started => "started"@,
                NavigationStatus::Committed => "committed"@,
                NavigationStatus::Finished => "finished"@,
                NavigationStatus::Failed => "failed"@,
            })
        },
        evt is ConsoleMessage ==> {
            let c = json_contents((r->0).1);
            &&& (r->0).0@ == "console"@
            &&& c is Object
            &&& c->Object_0["message"@] is Text && c->Object_0["message"@]->Text_0 == evt->message@
            &&& is_text(c->Object_0["source"@], evt->source)
            &&& is_number(
                c->Object_0["line"@],
                match evt->line {
                    Some(n) => Some(n as int),
                    None => None,
                },
            )
            &&& is_number(
                c->Object_0["column"@],
                match evt->column {
                    Some(n) => Some(n as int),
                    None => None,
                },
            )
            &&& c->Object_0["level"@] is Text
            &&& c->Object_0["level"@]->Text_0 == (match evt->level {
                ConsoleLevel::Debug => "debug"@,
                ConsoleLevel::Info => "info"@,
                ConsoleLevel::Warn => "warn"@,
                ConsoleLevel::Error => "error"@,
            })
        },
        evt is DevToolsPortOpened ==> {
            let c = json_contents((r->0).1);
            &&& (r->0).0@ == "devtools_port_opened"@
            &&& c is Object
            &&& is_number(c->Object_0["port"@], Some(evt->port as int))
            &&& is_text(c->Object_0["url"@], evt->DevToolsPortOpened_url)
        },
{
    reveal_strlit("status");
    reveal_strlit("url");
    reveal_strlit("http_status");
    reveal_strlit("level");
    reveal_strlit("message");
    reveal_strlit("source");
    reveal_strlit("line");
    reveal_strlit("column");
    reveal_strlit("port");
    assert("status"@.len() == 6 && "url"@.len() == 3 && "http_status"@.len() == 11);
    assert("level"@.len() == 5 && "message"@.len() == 7 && "source"@.len() == 6);
    assert("line"@.len() == 4 && "column"@.len() == 6 && "port"@.len() == 4);
    assert("source"@[0] != "column"@[0]);
    assert("source"@ != "column"@);
    reveal_with_fuel(crate::json::members, 6);
    match *evt {
        Event::Navigation { status, url, http_status } => {
            let f = seq![
                ("status"@, JsonContents::Text(crate::server::status_name(status))),
                ("url"@, crate::json::opt_text_contents(crate::text::opt_view(url))),
                ("http_status"@, crate::server::opt_u16_contents(http_status)),
            ];
            assert(f.drop_last() =~= f.take(2));
            assert(f.take(2).drop_last() =~= f.take(1));
            assert(f.take(1).drop_last() =~= Seq::empty());
            assert(json_contents((r->0).1) == JsonContents::Object(crate::json::members(f)));
            assert(crate::json::members(f) == Map::<Seq<char>, JsonContents>::empty().insert(
                "status"@,
                f[0].1,
            ).insert("url"@, f[1].1).insert("http_status"@, f[2].1));
        },
        Event::ConsoleMessage { level, message, source, line, column } => {
            let f = seq![
                ("level"@, JsonContents::Text(crate::server::level_name(level))),
                ("message"@, JsonContents::Text(message@)),
                ("source"@, crate::json::opt_text_contents(crate::text::opt_view(source))),
                ("line"@, crate::server::opt_u32_contents(line)),
                ("column"@, crate::server::opt_u32_contents(column)),
            ];
            assert(f.drop_last() =~= f.take(4));
            assert(f.take(4).drop_last() =~= f.take(3));
            assert(f.take(3).drop_last() =~= f.take(2));
            assert(f.take(2).drop_last() =~= f.take(1));
            assert(f.take(1).drop_last() =~= Seq::empty());
            assert(json_contents((r->0).1) == JsonContents::Object(crate::json::members(f)));
            assert(crate::json::members(f) == Map::<Seq<char>, JsonContents>::empty().insert(
                "level"@,
                f[0].1,
            ).insert("message"@, f[1].1).insert("source"@, f[2].1).insert("line"@, f[3].1).insert(
                "column"@,
                f[4].1,
            ));
        },
        Event::DevToolsPortOpened { port, url } => {
            let f = seq![
                ("port"@, JsonContents::Integer(port as int)),
                ("url"@, crate::json::opt_text_contents(crate::text::opt_view(url))),
            ];
            assert(f.drop_last() =~= f.take(1));
            assert(f.take(1).drop_last() =~= Seq::empty());
        },
        Event::FrameReady { frame_id, descriptor } => {},
    }
}

/// States and levels have the names that web content knows.
pub proof fn states_and_levels_are_named(
    s: NavigationStatus,
    a: &'static str,
    l: ConsoleLevel,
    b: &'static str,
)
    requires
        call_ensures(status_to_str, (s,), a),
        call_ensures(level_to_str, (l,), b),
    ensures
        s is Started ==> a@ == "started"@,
        s is Committed ==> a@ == "committed"@,
        s is Finished ==> a@ == "finished"@,
        s is Failed ==> a@ == "failed"@,
        l is Debug ==> b@ == "debug"@,
        l is Info ==> b@ == "info"@,
        l is Warn ==> b@ == "warn"@,
        l is Error ==> b@ == "error"@,
{
}

/// A message of a client is a request to be served, or nothing; a failed read ends the server, and
/// a frame that is no message does not.
pub proof fn client_messages_are_told_apart(
    env: Envelope,
    i: Incoming,
    read: Received,
    next: ServerStep,
)
    requires
        call_ensures(incoming, (env,), i),
        call_ensures(after_read, (read,), next),
    ensures
        env.message is Request <==> i is Request,
        i is Request ==> i->version == env.version && i->id == env.id && i->request
            == env.message->Request_0,
        next is Stop <==> read is Failed,
        next is Serve <==> read is Message && read->Message_0.message is Request,
        next is Serve ==> next->version == read->Message_0.version && next->id
            == read->Message_0.id && next->request == read->Message_0.message->Request_0,
{
}

/// The engine is the one that is named, in any case; Servo where none or another is named, and
/// where the page engine is not built in.
pub proof fn named_engine_is_chosen(
    name: &Option<String>,
    built_in: bool,
    k: EngineKind,
    a: Option<String>,
    b: Option<String>,
    c: Option<String>,
)
    requires
        call_ensures(choose_engine, (name, built_in), k),
        call_ensures(engine_name, (a, b), c),
    ensures
        k is Demo <==> name is Some && same_letters(name->0@, "demo"@),
        k is Dioxus <==> name is Some && same_letters(name->0@, "dioxus"@) && built_in,
        a is Some ==> c == a,
        a is None ==> c == b,
{
    if name is Some {
        crate::laws::rendering::letters_and_cases(name->0@, "demo"@);
        crate::laws::rendering::letters_and_cases(name->0@, "dioxus"@);
        reveal_strlit("demo");
        reveal_strlit("dioxus");
    }
}

/// Whether something is there.
pub open spec fn is_there(c: Option<Candidate>) -> bool {
    c is Some && c->0.exists
}

/// A binary that is there is taken from the command line before the environment, from the
/// environment before its pointer file, and from that before the slots; of the slots the first that
/// has one serves, its current build before that of its manifest.
pub proof fn binary_is_found_in_order(
    cli: &Option<Candidate>,
    env: &Option<Candidate>,
    pointer: &Option<Candidate>,
    slots: &Vec<SlotPointers>,
    r: Option<String>,
    k: int,
)
    requires
        call_ensures(discover_servo, (cli, env, pointer, slots), r),
    ensures
        is_there(*cli) ==> r is Some && r->0@ == cli->0.path@,
        !is_there(*cli) && is_there(*env) ==> r is Some && r->0@ == env->0.path@,
        !is_there(*cli) && !is_there(*env) && is_there(*pointer) ==> r is Some && r->0@
            == pointer->0.path@,
        !is_there(*cli) && !is_there(*env) && !is_there(*pointer) && 0 <= k < slots@.len() && (
        forall|j: int|
            0 <= j < k ==> !is_there((#[trigger] slots@[j]).current) && !is_there(slots@[j].latest))
            && is_there(slots@[k].current) ==> r is Some && r->0@ == slots@[k].current->0.path@,
        !is_there(*cli) && !is_there(*env) && !is_there(*pointer) && 0 <= k < slots@.len() && (
        forall|j: int|
            0 <= j < k ==> !is_there((#[trigger] slots@[j]).current) && !is_there(slots@[j].latest))
            && !is_there(slots@[k].current) && is_there(slots@[k].latest) ==> r is Some && r->0@
            == slots@[k].latest->0.path@,
        !is_there(*cli) && !is_there(*env) && !is_there(*pointer) && (forall|j: int|
            0 <= j < slots@.len() ==> !is_there((#[trigger] slots@[j]).current) && !is_there(
                slots@[j].latest,
            )) ==> r is None,
{
    slots_are_searched_in_order(slots@, k);
}

proof fn slots_are_searched_in_order(slots: Seq<SlotPointers>, k: int)
    ensures
        0 <= k < slots.len() && (forall|j: int|
            0 <= j < k ==> !is_there((#[trigger] slots[j]).current) && !is_there(slots[j].latest))
            && is_there(slots[k].current) ==> crate::server::first_in_slots(slots) == Some(
            slots[k].current->0.path@,
        ),
        0 <= k < slots.len() && (forall|j: int|
            0 <= j < k ==> !is_there((#[trigger] slots[j]).current) && !is_there(slots[j].latest))
            && !is_there(slots[k].current) && is_there(slots[k].latest)
            ==> crate::server::first_in_slots(slots) == Some(slots[k].latest->0.path@),
        (forall|j: int|
            0 <= j < slots.len() ==> !is_there((#[trigger] slots[j]).current) && !is_there(
                slots[j].latest,
            )) ==> crate::server::first_in_slots(slots) is None,
    decreases slots.len(),
{
    if slots.len() > 0 {
        let rest = slots.drop_first();
        slots_are_searched_in_order(rest, k - 1);
        assert(forall|j: int| 0 <= j < rest.len() ==> rest[j] == slots[j + 1]);
        if 0 < k < slots.len() {
            assert(rest[k - 1] == slots[k]);
            if forall|j: int|
                0 <= j < k ==> !is_there((#[trigger] slots[j]).current) && !is_there(
                    slots[j].latest,
                ) {
                assert(!is_there(slots[0].current) && !is_there(slots[0].latest));
                assert forall|j: int| 0 <= j < k - 1 implies !is_there((#[trigger] rest[j]).current)
                    && !is_there(rest[j].latest) by {
                    assert(rest[j] == slots[j + 1]);
                }
            }
        }
        if forall|j: int|
            0 <= j < slots.len() ==> !is_there((#[trigger] slots[j]).current) && !is_there(
                slots[j].latest,
            ) {
            assert(!is_there(slots[0].current) && !is_there(slots[0].latest));
            assert forall|j: int| 0 <= j < rest.len() implies !is_there(
                (#[trigger] rest[j]).current,
            ) && !is_there(rest[j].latest) by {
                assert(rest[j] == slots[j + 1]);
            }
        }
    }
}

/// The socket that was asked for is used where sockets can be, and the command `hello` gives back
/// what it got.
pub proof fn socket_is_used_where_it_can_be(
    socket: Option<String>,
    supported: bool,
    m: TransportMode,
    payload: Value,
    r: CommandResult,
)
    requires
        call_ensures(select_transport, (socket, supported), m),
        call_ensures(hello, (payload,), r),
    ensures
        m is UnixSocket <==> socket is Some && supported,
        m is UnixSocket ==> m->UnixSocket_0 == socket->0,
        r is Ok && r->Ok_0 == payload,
{
}

/// A scheduled draw asks the engine for a scheduled draw and an immediate one for an immediate
/// draw, once; an engine that cannot draw now is not asked.
pub proof fn draws_reach_the_engine<E: Engine>(
    engine: &mut E,
    next_id: &mut u64,
    handle_passing: bool,
    rest: Rest,
    step: Step,
)
    requires
        call_ensures(resume_request::<E>, (engine, next_id, handle_passing, rest), step),
        rest is Draw,
    ensures
        old(engine).can_draw() && rest->on_request ==> exists|reply: EngineReply| #[trigger]
            E::step(*old(engine), EngineCall::RequestDraw, *final(engine), reply),
        old(engine).can_draw() && !rest->on_request ==> exists|reply: EngineReply| #[trigger]
            E::step(*old(engine), EngineCall::DrawNow, *final(engine), reply),
        !old(engine).can_draw() ==> *final(engine) == *old(engine),
{
}

} // verus!
