//! What a host gets out of a render server process, and what the server gets from the host.
use vstd::prelude::*;
use crate::controller::{
    ControllerCapabilities, ControllerConfig, ControllerError, ControllerEvent, InputEvent,
    PhysicalSize,
};
use crate::ipc_controller::{
    classify_reply, finish_operation, finish_post, inspect_frame, map_event, map_input_event,
    map_mouse_button, receive, response_key, settle, to_proto_config, to_proto_surface_descriptor,
    FrameCheck, FrameInbox, Inbound, Inspection, IpcController, Operation, Posted, ReceivedHandle,
    SharedState, Waited,
};
use crate::ipc_protocol::{
    Envelope, Event, FrameDescriptor, IpcInputEvent, MouseButton, PayloadLocator, Request, Response,
    SurfaceDescriptor, PROTOCOL_MAX_VERSION, PROTOCOL_MIN_VERSION, PROTOCOL_VERSION,
};
use crate::ipc_transport::OpaqueHandle;
use crate::laws::{lists_agree, same_list, same_option};
use crate::winit_runtime::NativeSurfaceHandles;

verus! {

/// A frame has the size that its descriptor gives, whatever kind it is of.
pub open spec fn has_size(d: FrameDescriptor, w: u32, h: u32) -> bool {
    match d {
        FrameDescriptor::LinuxDmabuf { width, height, .. } => w == width && h == height,
        FrameDescriptor::MacOsIoSurface { width, height, .. } => w == width && h == height,
        FrameDescriptor::WindowsDxgiSharedHandle { width, height, .. } => w == width && h == height,
        FrameDescriptor::SharedMemoryImage { width, height, .. } => w == width && h == height,
        FrameDescriptor::CompressedImage { width, height, .. } => w == width && h == height,
    }
}

/// The host sees a frame at the size and under the id with which the server announced it.
pub proof fn frame_is_seen_at_its_size(e: Event, r: ControllerEvent)
    requires
        call_ensures(map_event, (e,), r),
    ensures
        e is FrameReady <==> r is FrameReady,
        e is FrameReady ==> r->frame_id == e->frame_id && has_size(
            e->descriptor,
            r->FrameReady_width,
            r->FrameReady_height,
        ),
{
}

/// The host sees a console line as the server wrote it.
pub proof fn console_line_is_seen_as_written(e: Event, r: ControllerEvent)
    requires
        call_ensures(map_event, (e,), r),
    ensures
        e is ConsoleMessage <==> r is Console,
        e is ConsoleMessage ==> {
            &&& r->message@ == e->message@
            &&& same_option(r->source, e->source)
            &&& r->line == e->line
            &&& r->column == e->column
            &&& r->level is Debug <==> e->level is Debug
            &&& r->level is Info <==> e->level is Info
            &&& r->level is Warn <==> e->level is Warn
            &&& r->level is Error <==> e->level is Error
        },
{
}

/// The host sees a navigation and an opened port as the server reported them.
pub proof fn progress_is_seen_as_reported(e: Event, r: ControllerEvent)
    requires
        call_ensures(map_event, (e,), r),
    ensures
        e is Navigation <==> r is Navigation,
        e is Navigation ==> {
            &&& same_option(r->Navigation_url, e->Navigation_url)
            &&& r->http_status == e->http_status
            &&& r->status is Started <==> e->status is Started
            &&& r->status is Committed <==> e->status is Committed
            &&& r->status is Finished <==> e->status is Finished
            &&& r->status is Failed <==> e->status is Failed
        },
        e is DevToolsPortOpened <==> r is DevToolsPortOpened,
        e is DevToolsPortOpened ==> r->port == e->port && same_option(
            r->DevToolsPortOpened_url,
            e->DevToolsPortOpened_url,
        ),
{
}

/// A press arrives as a press and a release as a release, of the button that the code stands for;
/// codes that stand for no named button arrive as they are.
pub proof fn press_arrives_as_press(ev: InputEvent, r: IpcInputEvent)
    requires
        call_ensures(map_input_event, (ev,), r),
    ensures
        ev is MouseButton <==> r is MouseButton,
        ev is MouseButton ==> {
            &&& ev->state is Pressed <==> r->state is Pressed
            &&& ev->state is Released <==> r->state is Released
            &&& r->button is Left <==> ev->button == 1
            &&& r->button is Right <==> ev->button == 2
            &&& r->button is Middle <==> ev->button == 3
            &&& r->button is Other ==> r->button->Other_0 == ev->button
        },
{
}

/// A button code and the button on the wire stand for each other.
pub proof fn button_codes_are_kept_apart(a: u8, b: u8, x: MouseButton, y: MouseButton)
    requires
        call_ensures(map_mouse_button, (a,), x),
        call_ensures(map_mouse_button, (b,), y),
    ensures
        x == y <==> a == b,
        x is Left <==> a == 1,
        x is Right <==> a == 2,
        x is Middle <==> a == 3,
{
}

/// Movement, scrolling, keys, characters, focus and the pointer's coming and going arrive as they
/// were sent.
pub proof fn input_arrives_as_sent(ev: InputEvent, r: IpcInputEvent)
    requires
        call_ensures(map_input_event, (ev,), r),
    ensures
        ev is MouseMove ==> r is MouseMove && r->x == ev->x && r->y == ev->y,
        ev is Scroll ==> r is Scroll && r->delta_x == ev->delta_x && r->delta_y == ev->delta_y
            && r->is_precise == ev->is_precise,
        ev is KeyDown ==> r is KeyDown && r->KeyDown_key@ == ev->KeyDown_key@,
        ev is KeyUp ==> r is KeyUp && r->KeyUp_key@ == ev->KeyUp_key@,
        ev is CharInput ==> r is CharInput && r->ch == ev->ch,
        ev is FocusChanged ==> r is FocusChanged && r->focused == ev->focused,
        ev is PointerEntered ==> r is PointerEntered,
        ev is PointerLeft ==> r is PointerLeft,
{
}

/// The server is configured as the host asked: an explicit directory or port comes before the
/// global one, the agent and the scripts are kept, and the socket, where there is one, comes as one
/// further script that ends with its path.
pub proof fn configuration_reaches_the_server(
    cfg: &ControllerConfig,
    global_resources: &Option<String>,
    global_port: Option<u16>,
    r: crate::ipc_protocol::ControllerConfig,
)
    requires
        call_ensures(to_proto_config, (cfg, global_resources, global_port), r),
    ensures
        cfg.resources_dir is Some ==> r.resources_dir is Some && (r.resources_dir->0).0@
            == cfg.resources_dir->0@,
        cfg.resources_dir is None && global_resources is Some ==> r.resources_dir is Some
            && (r.resources_dir->0).0@ == global_resources->0@,
        cfg.resources_dir is None && global_resources is None ==> r.resources_dir is None,
        cfg.devtools_port is Some ==> r.devtools_port == cfg.devtools_port,
        cfg.devtools_port is None ==> r.devtools_port == global_port,
        same_option(r.user_agent, cfg.user_agent),
        cfg.unix_socket_path is None ==> same_list(r.init_scripts@, cfg.init_scripts@),
        cfg.unix_socket_path is Some ==> r.init_scripts@.len() == cfg.init_scripts@.len() + 1
            && same_list(r.init_scripts@.drop_last(), cfg.init_scripts@) && ends_with(
            r.init_scripts@.last()@,
            cfg.unix_socket_path->0@,
        ),
        r.ipc_tuning is None,
{
    let socket = cfg.unix_socket_path;
    assert(views_agree(r.init_scripts@, r@.init_scripts));
    if socket is Some {
        let last = "__ipc_unix_socket_path="@ + socket->0@;
        assert(r@.init_scripts.last() == last);
        assert(r.init_scripts@.last()@ == last);
        assert(last.skip(last.len() - socket->0@.len()) =~= socket->0@);
        assert forall|i: int| 0 <= i < cfg.init_scripts@.len() implies (
        #[trigger] r.init_scripts@.drop_last()[i])@ == cfg.init_scripts@[i]@ by {
            assert(r@.init_scripts[i] == r.init_scripts@[i]@);
            assert(cfg@.init_scripts[i] == cfg.init_scripts@[i]@);
        }
    } else {
        assert forall|i: int| 0 <= i < cfg.init_scripts@.len() implies (
        #[trigger] r.init_scripts@[i])@ == cfg.init_scripts@[i]@ by {
            assert(r@.init_scripts[i] == r.init_scripts@[i]@);
            assert(cfg@.init_scripts[i] == cfg.init_scripts@[i]@);
        }
    }
}

/// A text ends with another.
pub open spec fn ends_with(s: Seq<char>, end: Seq<char>) -> bool {
    s.len() >= end.len() && s.skip(s.len() - end.len()) == end
}

/// A list of texts and the texts themselves agree.
pub open spec fn views_agree(a: Seq<String>, b: Seq<Seq<char>>) -> bool {
    a.len() == b.len() && forall|i: int| 0 <= i < a.len() ==> (#[trigger] a[i])@ == b[i]
}

/// Whether a controller can work on the page.
pub open spec fn usable(c: IpcController) -> bool {
    c.initialized && c.connected && c.alive
}

/// The controller stands where it stood.
pub open spec fn stands_as(a: IpcController, b: IpcController) -> bool {
    &&& a.initialized == b.initialized
    &&& a.connected == b.connected
    &&& a.alive == b.alive
}

/// The controller remembers the same page.
pub open spec fn remembers_as(a: IpcController, b: IpcController) -> bool {
    &&& same_option(a.last_url, b.last_url)
    &&& same_option(a.last_script, b.last_script)
    &&& a.last_size == b.last_size
    &&& a.visible == b.visible
}

/// The controller has counted the same.
pub open spec fn counted_as(a: IpcController, b: IpcController) -> bool {
    &&& a.input_events == b.input_events
    &&& a.draws_requested == b.draws_requested
    &&& a.draws_performed == b.draws_performed
}

/// A controller that cannot be used answers why: it was not set up, or it has no surface, or its
/// connection is gone, in this order; and nothing about it changes.
pub open spec fn refused<T>(
    pre: IpcController,
    post: IpcController,
    r: Result<T, ControllerError>,
) -> bool {
    &&& r is Err
    &&& r->Err_0 is NotInitialized <==> !pre.initialized
    &&& r->Err_0 is SurfaceNotBound <==> pre.initialized && !pre.connected
    &&& r->Err_0 is InvalidState <==> pre.initialized && pre.connected
    &&& stands_as(post, pre)
    &&& remembers_as(post, pre)
    &&& counted_as(post, pre)
    &&& post.next_id == pre.next_id
}

/// A message went out: under the id that was next, in the version that is spoken, without flags,
/// and the next id is another one.
pub open spec fn went_out(
    pre: IpcController,
    post: IpcController,
    r: Result<Envelope, ControllerError>,
) -> bool {
    &&& r is Ok
    &&& r->Ok_0.version == PROTOCOL_VERSION
    &&& r->Ok_0.flags == 0
    &&& r->Ok_0.id == pre.next_id
    &&& r->Ok_0.message is Request
    &&& pre.next_id < u64::MAX ==> post.next_id == pre.next_id + 1
    &&& pre.next_id == u64::MAX ==> post.next_id == 0
    &&& stands_as(post, pre)
}

/// A load asks the server for the URL that was given and remembers it.
pub proof fn load_asks_for_its_url(
    c: &mut IpcController,
    url: &str,
    r: Result<Envelope, ControllerError>,
)
    requires
        call_ensures(IpcController::load, (c, url), r),
    ensures
        !usable(*old(c)) ==> refused(*old(c), *final(c), r),
        usable(*old(c)) ==> {
            &&& went_out(*old(c), *final(c), r)
            &&& r->Ok_0.message->Request_0 is Load
            &&& r->Ok_0.message->Request_0->url@ == url@
            &&& final(c).last_url is Some && final(c).last_url->0@ == url@
            &&& same_option(final(c).last_script, old(c).last_script)
            &&& final(c).last_size == old(c).last_size
            &&& counted_as(*final(c), *old(c))
        },
{
}

/// A script is sent as it was given and remembered.
pub proof fn script_is_sent_as_given(
    c: &mut IpcController,
    source: &str,
    r: Result<Envelope, ControllerError>,
)
    requires
        call_ensures(IpcController::eval_script, (c, source), r),
    ensures
        !usable(*old(c)) ==> refused(*old(c), *final(c), r),
        usable(*old(c)) ==> {
            &&& went_out(*old(c), *final(c), r)
            &&& r->Ok_0.message->Request_0 is EvalScript
            &&& r->Ok_0.message->Request_0->source@ == source@
            &&& r->Ok_0.message->Request_0->EvalScript_request_id is None
            &&& final(c).last_script is Some && final(c).last_script->0@ == source@
            &&& same_option(final(c).last_url, old(c).last_url)
            &&& final(c).last_size == old(c).last_size
            &&& counted_as(*final(c), *old(c))
        },
{
}

/// A new size reaches the server with its width as width and its height as height.
pub proof fn size_is_sent_as_given(
    c: &mut IpcController,
    size: PhysicalSize,
    r: Result<Envelope, ControllerError>,
)
    requires
        call_ensures(IpcController::resize, (c, size), r),
    ensures
        !usable(*old(c)) ==> refused(*old(c), *final(c), r),
        usable(*old(c)) ==> {
            &&& went_out(*old(c), *final(c), r)
            &&& r->Ok_0.message->Request_0 is Resize
            &&& r->Ok_0.message->Request_0->Resize_width == size.width
            &&& r->Ok_0.message->Request_0->Resize_height == size.height
            &&& final(c).last_size == Some(size)
            &&& same_option(final(c).last_url, old(c).last_url)
            &&& same_option(final(c).last_script, old(c).last_script)
            &&& counted_as(*final(c), *old(c))
        },
{
}

/// A scheduled draw and an immediate one ask for what they are, and each is counted by its own
/// counter.
pub proof fn draws_are_asked_for_and_counted(
    a: &mut IpcController,
    scheduled: Result<Envelope, ControllerError>,
    b: &mut IpcController,
    immediate: Result<Envelope, ControllerError>,
)
    requires
        call_ensures(IpcController::request_draw, (a,), scheduled),
        call_ensures(IpcController::draw, (b,), immediate),
    ensures
        !usable(*old(a)) ==> refused(*old(a), *final(a), scheduled),
        !usable(*old(b)) ==> refused(*old(b), *final(b), immediate),
        usable(*old(a)) ==> {
            &&& went_out(*old(a), *final(a), scheduled)
            &&& scheduled->Ok_0.message->Request_0 is RequestDraw
            &&& old(a).draws_requested < usize::MAX ==> final(a).draws_requested
                == old(a).draws_requested + 1
            &&& old(a).draws_requested == usize::MAX ==> final(a).draws_requested == 0
            &&& final(a).draws_performed == old(a).draws_performed
            &&& final(a).input_events == old(a).input_events
            &&& remembers_as(*final(a), *old(a))
        },
        usable(*old(b)) ==> {
            &&& went_out(*old(b), *final(b), immediate)
            &&& immediate->Ok_0.message->Request_0 is DrawNow
            &&& old(b).draws_performed < usize::MAX ==> final(b).draws_performed
                == old(b).draws_performed + 1
            &&& old(b).draws_performed == usize::MAX ==> final(b).draws_performed == 0
            &&& final(b).draws_requested == old(b).draws_requested
            &&& final(b).input_events == old(b).input_events
            &&& remembers_as(*final(b), *old(b))
        },
{
}

/// Input goes to the server as a batch of the one event, in the form in which events are mapped,
/// and is counted.
pub proof fn input_is_forwarded(
    c: &mut IpcController,
    event: InputEvent,
    r: Result<Envelope, ControllerError>,
)
    requires
        call_ensures(IpcController::send_input, (c, event), r),
    ensures
        !usable(*old(c)) ==> refused(*old(c), *final(c), r),
        usable(*old(c)) ==> {
            let req = r->Ok_0.message->Request_0;
            &&& went_out(*old(c), *final(c), r)
            &&& req is InputEvent
            &&& req->events@.len() == 1
            &&& event is MouseButton ==> {
                &&& req->events@[0] is MouseButton
                &&& req->events@[0]->state is Pressed <==> event->state is Pressed
                &&& req->events@[0]->button is Left <==> event->button == 1
            }
            &&& event is KeyDown ==> req->events@[0] is KeyDown && req->events@[0]->KeyDown_key@
                == event->KeyDown_key@
            &&& event is KeyUp ==> req->events@[0] is KeyUp && req->events@[0]->KeyUp_key@
                == event->KeyUp_key@
            &&& event is MouseMove ==> req->events@[0] is MouseMove && req->events@[0]->x == event->x
                && req->events@[0]->y == event->y
            &&& event is Scroll ==> req->events@[0] is Scroll && req->events@[0]->delta_x
                == event->delta_x && req->events@[0]->delta_y == event->delta_y
            &&& event is CharInput ==> req->events@[0] is CharInput && req->events@[0]->ch
                == event->ch
            &&& event is FocusChanged ==> req->events@[0] is FocusChanged
                && req->events@[0]->focused == event->focused
            &&& old(c).input_events < usize::MAX ==> final(c).input_events == old(c).input_events
                + 1
            &&& old(c).input_events == usize::MAX ==> final(c).input_events == 0
            &&& final(c).draws_requested == old(c).draws_requested
            &&& final(c).draws_performed == old(c).draws_performed
            &&& remembers_as(*final(c), *old(c))
        },
{
    if usable(*old(c)) {
        let sent = r->Ok_0@.message->Request_0;
        let events = r->Ok_0.message->Request_0->events@;
        assert(sent->events == crate::ipc_protocol::event_views(events));
        assert(sent->events.len() == 1);
        assert(sent->events[0] == events[0]@);
    }
}

/// Visibility is kept by the host alone, and focus changes nothing.
pub proof fn visibility_is_kept(
    a: &mut IpcController,
    visible: bool,
    shown: Result<(), ControllerError>,
    b: &mut IpcController,
    focused: Result<(), ControllerError>,
)
    requires
        call_ensures(IpcController::set_visibility, (a, visible), shown),
        call_ensures(IpcController::focus, (b,), focused),
    ensures
        !usable(*old(a)) ==> refused(*old(a), *final(a), shown),
        usable(*old(a)) ==> shown is Ok && final(a).visible == visible && stands_as(
            *final(a),
            *old(a),
        ) && counted_as(*final(a), *old(a)) && final(a).next_id == old(a).next_id && same_option(
            final(a).last_url,
            old(a).last_url,
        ),
        !usable(*old(b)) ==> refused(*old(b), *final(b), focused),
        usable(*old(b)) ==> focused is Ok && stands_as(*final(b), *old(b)) && remembers_as(
            *final(b),
            *old(b),
        ) && counted_as(*final(b), *old(b)) && final(b).next_id == old(b).next_id,
{
}

/// A new controller is neither set up nor connected, remembers nothing, and starts its ids at 1.
pub proof fn new_controller_knows_nothing(c: IpcController)
    requires
        call_ensures(IpcController::new, (), c),
    ensures
        !c.initialized && !c.connected && !c.alive,
        c.config is None,
        c.last_url is None && c.last_script is None && c.last_size is None,
        c.input_events == 0 && c.draws_requested == 0 && c.draws_performed == 0,
        c.visible,
        c.negotiated_caps is None,
        c.next_id == 1,
{
}

/// Setting up keeps the configuration whole and succeeds once; a controller that is set up is not
/// alive before it is connected.
pub proof fn setting_up_keeps_the_configuration(
    c: &mut IpcController,
    config: ControllerConfig,
    r: Result<(), ControllerError>,
)
    requires
        call_ensures(IpcController::initialize, (c, config), r),
    ensures
        r is Ok <==> !old(c).initialized,
        old(c).initialized ==> r->Err_0 is InvalidState && stands_as(*final(c), *old(c)),
        r is Ok ==> {
            &&& final(c).initialized && !final(c).alive
            &&& final(c).connected == old(c).connected
            &&& final(c).config is Some
            &&& same_configuration(final(c).config->0, config)
        },
        remembers_as(*final(c), *old(c)),
        counted_as(*final(c), *old(c)),
        final(c).next_id == old(c).next_id,
{
    if r is Ok {
        lists_agree(final(c).config->0.init_scripts@, config.init_scripts@);
    }
}

/// Two configurations agree in every setting.
pub open spec fn same_configuration(a: ControllerConfig, b: ControllerConfig) -> bool {
    &&& a.mode == b.mode
    &&& same_option(a.external_bin_path, b.external_bin_path)
    &&& same_option(a.resources_dir, b.resources_dir)
    &&& a.devtools_port == b.devtools_port
    &&& same_option(a.user_agent, b.user_agent)
    &&& same_list(a.init_scripts@, b.init_scripts@)
    &&& same_option(a.unix_socket_path, b.unix_socket_path)
}

/// The server binary of the configuration is started, else the global one; never before setting up
/// and never a second time.
pub proof fn configured_server_is_started(
    c: &IpcController,
    global_path: &str,
    r: Result<String, ControllerError>,
)
    requires
        call_ensures(IpcController::begin_bind, (c, global_path), r),
    ensures
        r is Ok <==> c.initialized && !c.connected,
        !c.initialized ==> r->Err_0 is NotInitialized,
        c.initialized && c.connected ==> r->Err_0 is InvalidState,
        r is Ok && c.config is Some && c.config->0.external_bin_path is Some ==> r->Ok_0@
            == c.config->0.external_bin_path->0@,
        r is Ok && (c.config is None || c.config->0.external_bin_path is None) ==> r->Ok_0@
            == global_path@,
{
}

/// A server that was started is greeted with the configuration; one that was not is not.
pub proof fn started_server_is_greeted(
    c: &mut IpcController,
    started: Result<(), ControllerError>,
    global_resources: &Option<String>,
    global_port: Option<u16>,
    r: Result<Envelope, ControllerError>,
)
    requires
        call_ensures(IpcController::server_started, (c, started, global_resources, global_port), r),
    ensures
        r is Ok <==> started is Ok && old(c).config is Some,
        started is Err ==> r is Err && stands_as(*final(c), *old(c)) && final(c).next_id
            == old(c).next_id,
        started is Ok ==> final(c).alive && final(c).connected == old(c).connected
            && final(c).initialized == old(c).initialized,
        r is Ok ==> {
            let req = r->Ok_0.message->Request_0;
            let cfg = old(c).config->0;
            &&& r->Ok_0.message is Request && req is Init
            &&& req->client_name@ == "verso-standalone"@
            &&& r->Ok_0.id == old(c).next_id
            &&& r->Ok_0.version == PROTOCOL_VERSION
            &&& req->supported.min == PROTOCOL_MIN_VERSION
            &&& req->supported.max == PROTOCOL_MAX_VERSION
            &&& same_option(req->config.user_agent, cfg.user_agent)
            &&& cfg.devtools_port is Some ==> req->config.devtools_port == cfg.devtools_port
            &&& cfg.devtools_port is None ==> req->config.devtools_port == global_port
            &&& cfg.resources_dir is Some ==> req->config.resources_dir is Some && (
            req->config.resources_dir->0).0@ == cfg.resources_dir->0@
            &&& cfg.unix_socket_path is None ==> same_list(
                req->config.init_scripts@,
                cfg.init_scripts@,
            )
        },
        remembers_as(*final(c), *old(c)),
        counted_as(*final(c), *old(c)),
{
    if r is Ok {
        let sent = r->Ok_0.message->Request_0->config;
        let cfg = old(c).config->0;
        if cfg.unix_socket_path is None {
            lists_agree(sent.init_scripts@, cfg.init_scripts@);
        }
    }
}

/// A handshake that the server took settles what the server said, and the surface is described
/// next; anything else is an error that settles nothing.
pub proof fn handshake_settles_what_was_answered(
    c: &mut IpcController,
    w: Waited,
    shown: &str,
    handles: &NativeSurfaceHandles,
    r: Result<Envelope, ControllerError>,
)
    requires
        call_ensures(IpcController::handshake_answered, (c, w, shown, handles), r),
    ensures
        r is Ok <==> w is Replied && w->Replied_0 is InitAck,
        r is Ok ==> {
            let caps = w->Replied_0->capabilities;
            &&& r->Ok_0.message is Request && r->Ok_0.message->Request_0 is BindSurface
            &&& r->Ok_0.id == old(c).next_id
            &&& final(c).negotiated_caps is Some
            &&& final(c).negotiated_caps->0.fd_passing == caps.fd_passing
            &&& final(c).negotiated_caps->0.zero_copy_frames == caps.zero_copy_frames
            &&& final(c).negotiated_caps->0.compressed_frames == caps.compressed_frames
        },
        r is Err ==> final(c).next_id == old(c).next_id && (final(c).negotiated_caps is Some
            <==> old(c).negotiated_caps is Some),
        stands_as(*final(c), *old(c)),
        remembers_as(*final(c), *old(c)),
        counted_as(*final(c), *old(c)),
{
}

/// The controller is connected exactly if the server acknowledged the surface.
pub proof fn acknowledged_surface_connects(
    c: &mut IpcController,
    w: Waited,
    shown: &str,
    r: Result<(), ControllerError>,
)
    requires
        call_ensures(IpcController::surface_answered, (c, w, shown), r),
    ensures
        r is Ok <==> w is Replied && w->Replied_0 is Ack,
        r is Ok ==> final(c).connected,
        r is Err ==> final(c).connected == old(c).connected,
        final(c).alive == old(c).alive,
        final(c).initialized == old(c).initialized,
        remembers_as(*final(c), *old(c)),
        counted_as(*final(c), *old(c)),
        final(c).next_id == old(c).next_id,
{
}

/// What a handshake settled is told as it was settled.
pub proof fn settled_capabilities_are_told(c: &IpcController, r: Option<ControllerCapabilities>)
    requires
        call_ensures(IpcController::capabilities, (c,), r),
    ensures
        r is Some <==> c.negotiated_caps is Some,
        r is Some ==> {
            &&& r->0.fd_passing == c.negotiated_caps->0.fd_passing
            &&& r->0.zero_copy_frames == c.negotiated_caps->0.zero_copy_frames
            &&& r->0.compressed_frames == c.negotiated_caps->0.compressed_frames
        },
{
}

/// Shutting down asks a server that can be reached to end, once, and afterwards there is neither a
/// connection nor a surface.
pub proof fn shutting_down_ends_the_session(
    c: &mut IpcController,
    r: Result<Option<Envelope>, ControllerError>,
    d: &mut IpcController,
    done: (),
)
    requires
        call_ensures(IpcController::begin_shutdown, (c,), r),
        call_ensures(IpcController::finish_shutdown, (d,), done),
    ensures
        r is Ok <==> old(c).initialized,
        r is Ok ==> (r->Ok_0 is Some <==> old(c).connected && old(c).alive),
        r is Ok && r->Ok_0 is Some ==> {
            let env = r->Ok_0->0;
            &&& env.message is Request && env.message->Request_0 is Shutdown
            &&& env.id == old(c).next_id
            &&& env.version == PROTOCOL_VERSION
        },
        stands_as(*final(c), *old(c)),
        !final(d).alive && !final(d).connected,
        final(d).initialized == old(d).initialized,
        remembers_as(*final(d), *old(d)),
        counted_as(*final(d), *old(d)),
{
}

/// A connection that is lost leaves everything else as it was.
pub proof fn lost_connection_is_noticed(c: &mut IpcController, done: (), d: &IpcController, b: bool)
    requires
        call_ensures(IpcController::connection_lost, (c,), done),
        call_ensures(IpcController::is_alive, (d,), b),
    ensures
        !final(c).alive,
        final(c).initialized == old(c).initialized && final(c).connected == old(c).connected,
        remembers_as(*final(c), *old(c)),
        counted_as(*final(c), *old(c)),
        b == d.alive,
{
}

/// The surface that is described has no size of its own.
pub proof fn surface_is_described_plainly(handles: &NativeSurfaceHandles, d: SurfaceDescriptor)
    requires
        call_ensures(to_proto_surface_descriptor, (handles,), d),
    ensures
        d is Fallback && d->Fallback_width == 0 && d->Fallback_height == 0,
        d->scale_factor.bits == 0x3F80_0000,
{
}

/// An operation succeeds exactly if the server acknowledged it, and an error says what the server
/// said.
pub proof fn operation_succeeds_if_acknowledged(
    op: Operation,
    w: Waited,
    shown: &str,
    r: Result<(), ControllerError>,
)
    requires
        call_ensures(finish_operation, (op, w, shown), r),
    ensures
        r is Ok <==> w is Replied && w->Replied_0 is Ack,
        w is Replied && w->Replied_0 is Error ==> r->Err_0 is BackendMsg && ends_with(
            r->Err_0->BackendMsg_0@,
            w->Replied_0->message@,
        ),
        w is Replied && (w->Replied_0 is InitAck || w->Replied_0 is InvokeResult) ==> r->Err_0
            is BackendMsg && ends_with(r->Err_0->BackendMsg_0@, shown@),
        w is NotConnected || w is NoRuntime ==> r->Err_0 is InvalidState,
        w is NotSent || w is Canceled || w is TimedOut ==> r->Err_0 is Backend,
        w is NotEncoded ==> r->Err_0 is BackendMsg && ends_with(
            r->Err_0->BackendMsg_0@,
            w->NotEncoded_0@,
        ),
{
    if r is Err && r->Err_0 is BackendMsg {
        let text = r->Err_0->BackendMsg_0@;
        if w is Replied && w->Replied_0 is Error {
            let end = w->Replied_0->message@;
            assert(text.skip(text.len() - end.len()) =~= end);
        } else if w is Replied {
            assert(text.skip(text.len() - shown@.len()) =~= shown@);
        } else if w is NotEncoded {
            let end = w->NotEncoded_0@;
            assert(text.skip(text.len() - end.len()) =~= end);
        }
    }
}

/// Different operations are told apart in what their errors say.
pub proof fn operations_err_in_their_own_words(
    a: Operation,
    b: Operation,
    resp: &Response,
    shown: &str,
    x: Result<(), ControllerError>,
    y: Result<(), ControllerError>,
)
    requires
        call_ensures(classify_reply, (a, resp, shown), x),
        call_ensures(classify_reply, (b, resp, shown), y),
        !(resp is Ack),
        a != b,
    ensures
        x is Err && y is Err,
        x->Err_0 is BackendMsg && y->Err_0 is BackendMsg,
        x->Err_0->BackendMsg_0@ != y->Err_0->BackendMsg_0@,
{
    reveal_strlit("bind surface error: ");
    reveal_strlit("load error: ");
    reveal_strlit("eval_script error: ");
    reveal_strlit("resize error: ");
    reveal_strlit("draw error: ");
    reveal_strlit("unexpected response to BindSurface: ");
    reveal_strlit("unexpected response to Load: ");
    reveal_strlit("unexpected response to EvalScript: ");
    reveal_strlit("unexpected response to Resize: ");
    reveal_strlit("unexpected response to DrawNow: ");
    let s = x->Err_0->BackendMsg_0@;
    let t = y->Err_0->BackendMsg_0@;
    assert(s[0] != t[0] || s[23] != t[23]);
}

/// A message that no reply is waited for fails exactly where it was not sent.
pub proof fn posting_fails_if_not_sent(p: Posted, r: Result<(), ControllerError>)
    requires
        call_ensures(finish_post, (p,), r),
    ensures
        r is Ok <==> p is Sent,
        p is NotConnected || p is NoRuntime ==> r->Err_0 is InvalidState,
        p is NotSent ==> r->Err_0 is Backend,
        p is NotEncoded ==> r->Err_0 is BackendMsg && ends_with(
            r->Err_0->BackendMsg_0@,
            p->NotEncoded_0@,
        ),
{
    if p is NotEncoded {
        let text = r->Err_0->BackendMsg_0@;
        let end = p->NotEncoded_0@;
        assert(text.skip(text.len() - end.len()) =~= end);
    }
}

/// A reply is handed on as it came.
pub proof fn reply_is_handed_on(w: Waited, r: Result<Response, ControllerError>)
    requires
        call_ensures(settle, (w,), r),
    ensures
        r is Ok <==> w is Replied,
        r is Ok ==> r->Ok_0 == w->Replied_0,
{
}

/// Whose id a response carries.
pub open spec fn answers_to(resp: Response, id: u64) -> bool {
    match resp {
        Response::Ack { in_reply_to } => in_reply_to == id,
        Response::Error { in_reply_to, .. } => in_reply_to == id,
        Response::InitAck { in_reply_to, .. } => in_reply_to == id,
        Response::InvokeResult { in_reply_to, .. } => in_reply_to == id,
    }
}

/// A response belongs to the request whose id it carries.
pub proof fn response_belongs_to_its_request(resp: &Response, id: u64)
    requires
        call_ensures(response_key, (resp,), id),
    ensures
        answers_to(*resp, id),
{
}

/// A response is handed, as it came, to whoever waits under the id that it carries, and to nobody
/// else; that wait is then over and all others go on.
pub proof fn response_reaches_who_waits<T>(
    shared: &mut SharedState<T>,
    inbox: &mut FrameInbox,
    env: Envelope,
    handles: Option<Vec<OpaqueHandle>>,
    r: Inbound<T>,
    id: u64,
)
    requires
        call_ensures(receive::<T>, (shared, inbox, env, handles), r),
        env.message is Response,
        answers_to(env.message->Response_0, id),
    ensures
        old(shared).pending@.contains_key(id) ==> r is Deliver && r->to == old(shared).pending@[id]
            && r->response == env.message->Response_0,
        !old(shared).pending@.contains_key(id) ==> r is Ignored,
        !final(shared).pending@.contains_key(id),
        forall|other: u64|
            other != id ==> (final(shared).pending@.contains_key(other) <==> #[trigger] old(shared).pending@.contains_key(other)),
        forall|other: u64|
            other != id && #[trigger] old(shared).pending@.contains_key(other)
                ==> final(shared).pending@[other] == old(shared).pending@[other],
{
}

/// An event is reported to the host, a frame at its size and under its id, and nobody's wait ends.
pub proof fn event_reaches_the_host<T>(
    shared: &mut SharedState<T>,
    inbox: &mut FrameInbox,
    env: Envelope,
    handles: Option<Vec<OpaqueHandle>>,
    r: Inbound<T>,
)
    requires
        call_ensures(receive::<T>, (shared, inbox, env, handles), r),
        env.message is Event,
    ensures
        r is Report,
        *final(shared) == *old(shared),
        env.message->Event_0 is FrameReady ==> r->event is FrameReady && r->event->frame_id
            == env.message->Event_0->frame_id && has_size(
            env.message->Event_0->descriptor,
            r->event->FrameReady_width,
            r->event->FrameReady_height,
        ),
        env.message->Event_0 is ConsoleMessage ==> r->event is Console && r->event->message@
            == env.message->Event_0->message@ && (r->event->level is Error
            <==> env.message->Event_0->level is Error) && r->check is None,
        env.message->Event_0 is Navigation ==> r->event is Navigation && same_option(
            r->event->Navigation_url,
            env.message->Event_0->Navigation_url,
        ) && (r->event->status is Failed <==> env.message->Event_0->status is Failed)
            && r->check is None,
        env.message->Event_0 is DevToolsPortOpened ==> r->event is DevToolsPortOpened
            && r->event->port == env.message->Event_0->port && r->check is None,
{
}

/// A frame in shared memory that comes with a handle is looked at under that handle and with its
/// own geometry, and afterwards nothing waits under its token.
pub proof fn shared_frame_is_looked_at<T>(
    shared: &mut SharedState<T>,
    inbox: &mut FrameInbox,
    env: Envelope,
    handles: Option<Vec<OpaqueHandle>>,
    r: Inbound<T>,
)
    requires
        call_ensures(receive::<T>, (shared, inbox, env, handles), r),
        env.message is Event,
        env.message->Event_0 is FrameReady,
        env.message->Event_0->descriptor is SharedMemoryImage,
        env.message->Event_0->descriptor->SharedMemoryImage_format is Rgba8888,
        env.message->Event_0->descriptor->size > 0,
        handles is Some && handles->0@.len() > 0,
    ensures
        ({
            let d = env.message->Event_0->descriptor;
            &&& r->check is Some
            &&& r->check->0.handle == handles->0@[0]
            &&& r->check->0.width == d->SharedMemoryImage_width
            &&& r->check->0.height == d->SharedMemoryImage_height
            &&& r->check->0.stride == d->SharedMemoryImage_stride
            &&& r->check->0.size == d->size
            &&& !final(inbox).pending_handles@.contains_key(d->shm.0)
        }),
{
    let d = env.message->Event_0->descriptor;
    assert(!final(inbox).held().contains_key(d->shm.0));
}

/// The handles that came with a frame of a single token are handed out under that token, the first
/// of them, and only once.
pub proof fn single_handle_is_handed_out_once(
    filing: &mut FrameInbox,
    d: &FrameDescriptor,
    handles: Vec<OpaqueHandle>,
    done: (),
    taking: &mut FrameInbox,
    token: u64,
    first: Result<ReceivedHandle, ControllerError>,
    again: &mut FrameInbox,
    second: Result<ReceivedHandle, ControllerError>,
)
    requires
        call_ensures(FrameInbox::file_handles, (filing, d, handles), done),
        call_ensures(FrameInbox::consume_handle, (taking, token), first),
        call_ensures(FrameInbox::consume_handle, (again, token), second),
        *old(taking) == *final(filing),
        *old(again) == *final(taking),
        handles@.len() > 0,
        match *d {
            FrameDescriptor::SharedMemoryImage { shm, .. } => shm.0 == token,
            FrameDescriptor::MacOsIoSurface { io_surface, .. } => io_surface.0 == token,
            FrameDescriptor::WindowsDxgiSharedHandle { handle, .. } => handle.0 == token,
            FrameDescriptor::CompressedImage { payload: PayloadLocator::Handle(h), .. } => h.0
                == token,
            _ => false,
        },
    ensures
        first is Ok && first->Ok_0.handle == handles@[0],
        second is Err && second->Err_0 is InvalidState,
{
}

/// An inspection finds the gradient exactly where every byte of it is there: red counts columns,
/// green counts rows, blue and alpha are fixed.  It finds another picture only where some byte
/// differs.
pub proof fn inspection_finds_the_gradient(
    data: &[u8],
    width: u32,
    height: u32,
    stride: u32,
    r: Option<bool>,
    x: u32,
    y: u32,
)
    requires
        call_ensures(inspect_frame, (data, width, height, stride), r),
        x < width,
        y < height,
    ensures
        r == Some(true) ==> {
            let at = y * stride + x * 4;
            &&& at + 3 < data@.len()
            &&& data@[at] == x % 256
            &&& data@[at + 1] == y % 256
            &&& data@[at + 2] == 0x80
            &&& data@[at + 3] == 0xFF
        },
        r == Some(false) ==> exists|i: int, j: int, c: int|
            0 <= i < width && 0 <= j < height && 0 <= c < 4 && #[trigger] pixel_is_wrong(
                data@,
                stride,
                i,
                j,
                c,
            ),
{
    use_inspection(data@, width as nat, height as nat, stride as nat, x as nat, y as nat);
    if r == Some(false) {
        let (i, j, c) = choose|i: nat, j: nat, c: nat| #[trigger]
            crate::ipc_controller::first_disagreement(
                data@,
                width as nat,
                height as nat,
                stride as nat,
                i,
                j,
                c,
            ) && crate::ipc_controller::byte_index(stride as nat, i, j, c) < data@.len();
        assert(pixel_is_wrong(data@, stride, i as int, j as int, c as int));
    }
}

/// A byte of the frame is there and is not that of the gradient.
pub open spec fn pixel_is_wrong(data: Seq<u8>, stride: u32, x: int, y: int, c: int) -> bool {
    let at = y * stride + x * 4 + c;
    &&& 0 <= at < data.len()
    &&& c == 0 ==> data[at] != x % 256
    &&& c == 1 ==> data[at] != y % 256
    &&& c == 2 ==> data[at] != 0x80
    &&& c == 3 ==> data[at] != 0xFF
}

proof fn use_inspection(data: Seq<u8>, width: nat, height: nat, stride: nat, x: nat, y: nat)
    requires
        x < width,
        y < height,
    ensures
        crate::ipc_controller::judged(data, width, height, stride) == Some(true) ==> {
            let at = (y * stride + x * 4) as int;
            &&& at + 3 < data.len()
            &&& data[at] == x % 256
            &&& data[at + 1] == y % 256
            &&& data[at + 2] == 0x80
            &&& data[at + 3] == 0xFF
        },
{
    if crate::ipc_controller::judged(data, width, height, stride) == Some(true) {
        assert(crate::ipc_controller::byte_agrees(data, stride, x, y, 0));
        assert(crate::ipc_controller::byte_agrees(data, stride, x, y, 1));
        assert(crate::ipc_controller::byte_agrees(data, stride, x, y, 2));
        assert(crate::ipc_controller::byte_agrees(data, stride, x, y, 3));
    }
}

/// A frame in which every pixel is that of the gradient is found to show it.
pub proof fn gradient_is_accepted(
    data: &[u8],
    width: u32,
    height: u32,
    stride: u32,
    r: Option<bool>,
)
    requires
        call_ensures(inspect_frame, (data, width, height, stride), r),
        forall|x: int, y: int|
            0 <= x < width && 0 <= y < height ==> #[trigger] pixel_is_right(data@, stride, x, y),
    ensures
        r == Some(true),
{
    assert forall|x: nat, y: nat, c: nat|
        x < width && y < height && c < 4 implies #[trigger] crate::ipc_controller::byte_agrees(
        data@,
        stride as nat,
        x,
        y,
        c,
    ) by {
        assert(pixel_is_right(data@, stride, x as int, y as int));
    }
    assert(crate::ipc_controller::shows_gradient(
        data@,
        width as nat,
        height as nat,
        stride as nat,
    ));
}

/// A byte that is not that of the gradient is found, where all bytes before it, row by row, pixel
/// by pixel and channel by channel, are.
pub proof fn first_difference_is_found(
    data: &[u8],
    width: u32,
    height: u32,
    stride: u32,
    r: Option<bool>,
    i: int,
    j: int,
    c: int,
)
    requires
        call_ensures(inspect_frame, (data, width, height, stride), r),
        0 <= i < width && 0 <= j < height && 0 <= c < 4,
        pixel_is_wrong(data@, stride, i, j, c),
        forall|x: int, y: int, k: int|
            0 <= x < width && 0 <= y < height && 0 <= k < 4 && (y < j || y == j && (x < i || x == i
                && k < c)) ==> #[trigger] byte_is_right(data@, stride, x, y, k),
    ensures
        r == Some(false),
{
    let (w, h, s) = (width as nat, height as nat, stride as nat);
    let (x1, y1, c1) = (i as nat, j as nat, c as nat);
    assert(!crate::ipc_controller::byte_agrees(data@, s, x1, y1, c1));
    assert forall|x: nat, y: nat, k: nat|
        x < w && k < 4 && crate::ipc_controller::before(x, y, k, x1, y1, c1) implies #[trigger]
    crate::ipc_controller::byte_agrees(data@, s, x, y, k) by {
        assert(byte_is_right(data@, stride, x as int, y as int, k as int));
    }
    assert(crate::ipc_controller::first_disagreement(data@, w, h, s, x1, y1, c1));
    assert(!crate::ipc_controller::shows_gradient(data@, w, h, s));
}

/// A byte of the frame is there and is that of the gradient.
pub open spec fn byte_is_right(data: Seq<u8>, stride: u32, x: int, y: int, c: int) -> bool {
    let at = y * stride + x * 4 + c;
    &&& 0 <= at < data.len()
    &&& data[at] == if c == 0 {
        x % 256
    } else if c == 1 {
        y % 256
    } else if c == 2 {
        0x80
    } else {
        0xFF
    }
}

/// A pixel of the frame is there and is that of the gradient.
pub open spec fn pixel_is_right(data: Seq<u8>, stride: u32, x: int, y: int) -> bool {
    let at = y * stride + x * 4;
    &&& 0 <= at && at + 3 < data.len()
    &&& data[at] == x % 256 && data[at + 1] == y % 256
    &&& data[at + 2] == 0x80 && data[at + 3] == 0xFF
}

/// The handles of a frame of several planes are filed one by one: each plane finds its own handle
/// under its own token, as long as no later plane has the same token.
pub proof fn planes_find_their_handles(
    filing: &mut FrameInbox,
    d: &FrameDescriptor,
    handles: Vec<OpaqueHandle>,
    done: (),
    taking: &mut FrameInbox,
    token: u64,
    r: Result<ReceivedHandle, ControllerError>,
    i: int,
)
    requires
        call_ensures(FrameInbox::file_handles, (filing, d, handles), done),
        call_ensures(FrameInbox::consume_handle, (taking, token), r),
        *old(taking) == *final(filing),
        d is LinuxDmabuf && d->fence is None && d->planes@.len() > 1,
        0 <= i < d->planes@.len() && i < handles@.len(),
        token == d->planes@[i].fd.0,
        forall|j: int| i < j < d->planes@.len() ==> (#[trigger] d->planes@[j]).fd.0 != token,
    ensures
        r is Ok && r->Ok_0.handle == handles@[i],
{
    let tokens = crate::ipc_controller::tokens_of(d@);
    assert(tokens.len() == d->planes@.len());
    assert forall|j: int| i < j < tokens.len() implies #[trigger] tokens[j] != token by {
        assert(tokens[j] == d->planes@[j].fd.0);
    }
    handle_is_paired(old(filing).held(), tokens, handles@, tokens.len(), i);
}

proof fn handle_is_paired(
    held: Map<u64, Seq<OpaqueHandle>>,
    tokens: Seq<u64>,
    handles: Seq<OpaqueHandle>,
    n: nat,
    i: int,
)
    requires
        0 <= i < n <= tokens.len(),
        i < handles.len(),
        forall|j: int| i < j < n ==> #[trigger] tokens[j] != tokens[i],
    ensures
        crate::ipc_controller::paired(held, tokens, handles, n).contains_key(tokens[i]),
        crate::ipc_controller::paired(held, tokens, handles, n)[tokens[i]] == seq![handles[i]],
    decreases n,
{
    if i < n - 1 {
        handle_is_paired(held, tokens, handles, (n - 1) as nat, i);
        assert(tokens[n - 1] != tokens[i]);
    }
}

/// A frame that was read and shows the gradient counts as valid with its bytes; one that could not
/// be read does not.
pub proof fn inspection_is_recorded(
    inbox: &mut FrameInbox,
    check: &FrameCheck,
    found: Inspection,
    done: (),
    verdict: Option<bool>,
    data: &[u8],
)
    requires
        call_ensures(FrameInbox::record, (inbox, check, found), done),
        call_ensures(inspect_frame, (data, check.width, check.height, check.stride), verdict),
    ensures
        found is Unreadable ==> !final(inbox).last_frame_valid && final(inbox).last_frame_bytes
            is None,
        found is Read && found->data@ == data@ && verdict == Some(true)
            ==> final(inbox).last_frame_valid && final(inbox).last_frame_bytes == Some(
            found->data,
        ),
        found is Read && found->data@ == data@ && verdict == Some(false)
            ==> !final(inbox).last_frame_valid && final(inbox).last_frame_bytes is None,
        found is Read && found->data@ == data@ && verdict is None ==> final(inbox).last_frame_valid
            == old(inbox).last_frame_valid,
{
}

} // verus!
