use std::sync::{Arc, Mutex};

use raw_window_handle::{RawWindowHandle, XlibWindowHandle};
use verso_standalone::controller::{
    ButtonState, ConsoleLevel, ControllerCapabilities, ControllerConfig, ControllerError,
    ControllerEvent, InputEvent, MockWebviewController, NavigationStatus, PhysicalSize,
    WebviewController,
};
use verso_standalone::in_process_controller::InProcessController;
use verso_standalone::ipc_controller::{
    classify_reply, finish_operation, finish_post, inspect_frame, map_input_event, receive,
    to_proto_config, FrameCheck, FrameInbox, Inbound, Inspection, IpcController, Operation, Posted,
    SharedState, Waited,
};
use verso_standalone::ipc_protocol::{
    Capabilities, ConsoleLevel as WireLevel, DmabufPlane, Envelope, ErrorCode, Event,
    FrameDescriptor, HandleToken, IpcInputEvent, Message, MouseButton,
    NavigationStatus as WireStatus, PayloadLocator, PixelFormat, Real32, Real64, Request, Response,
    SurfaceDescriptor, VersionRange,
};
use verso_standalone::ipc_transport::OpaqueHandle;
use verso_standalone::settings::Settings;
use verso_standalone::winit_runtime::{
    map_winit_key, map_winit_mouse_button, post_outcome, Effect, GrabMode, HostMouseButton,
    InternalCommand, Key, NamedKey, NativeSurfaceHandles, Reaction, VersoWebviewHost, WindowAction,
    WindowEventKind, WindowRegistry, WinitRuntimeError, WinitWindowHandle,
};

fn handles() -> NativeSurfaceHandles {
    NativeSurfaceHandles {
        window: RawWindowHandle::Xlib(XlibWindowHandle::new(1)),
        display: None,
    }
}

const NOT_INIT: ControllerError =
    ControllerError::NotInitialized("call initialize() before using the controller");

#[test]
fn mock_controller_checks_the_order_of_calls() {
    let mut c: MockWebviewController<fn(ControllerEvent)> = MockWebviewController::new();
    assert!(!c.is_alive());
    assert_eq!(c.load("u"), Err(NOT_INIT));
    assert_eq!(c.bind_surface(handles()), Err(NOT_INIT));
    assert_eq!(c.shutdown(), Err(NOT_INIT));
    assert_eq!(c.initialize(ControllerConfig::default()), Ok(()));
    assert_eq!(
        c.initialize(ControllerConfig::default()),
        Err(ControllerError::InvalidState("initialize() called more than once"))
    );
    assert!(c.is_alive());
    assert_eq!(c.load("u"), Err(ControllerError::SurfaceNotBound));
    assert_eq!(c.bind_surface(handles()), Ok(()));
    assert_eq!(
        c.bind_surface(handles()),
        Err(ControllerError::InvalidState("bind_surface() called more than once"))
    );
    assert_eq!(c.load("about:blank"), Ok(()));
    assert_eq!(c.eval_script("1"), Ok(()));
    assert_eq!(c.resize(PhysicalSize { width: 3, height: 4 }), Ok(()));
    assert_eq!(c.request_draw(), Ok(()));
    assert_eq!(c.request_draw(), Ok(()));
    assert_eq!(c.draw(), Ok(()));
    assert_eq!(c.send_input(InputEvent::PointerEntered), Ok(()));
    assert_eq!(c.set_visibility(true), Ok(()));
    assert_eq!(c.focus(), Ok(()));
    assert_eq!(c.last_url(), Some("about:blank"));
    assert_eq!(c.last_script(), Some("1"));
    assert_eq!(c.last_size(), Some(PhysicalSize { width: 3, height: 4 }));
    assert_eq!((c.input_event_count(), c.draws_requested(), c.draws_performed()), (1, 2, 1));
    assert_eq!(c.config(), Some(&ControllerConfig::default()));
    assert_eq!(c.capabilities(), None);
    assert_eq!(c.shutdown(), Ok(()));
    assert!(!c.is_alive());
    assert_eq!(c.draw(), Err(ControllerError::InvalidState("controller not alive")));
    assert_eq!(c.shutdown(), Ok(()));
    assert_eq!(c.draws_performed(), 1);
}

#[test]
fn mock_controller_reports_to_its_sink() {
    let seen: Arc<Mutex<Vec<ControllerEvent>>> = Arc::new(Mutex::new(Vec::new()));
    let s = Arc::clone(&seen);
    let mut c = MockWebviewController::new();
    c.set_event_sink(move |e: ControllerEvent| s.lock().unwrap().push(e)).unwrap();
    assert!(c.load("early").is_err());
    c.initialize(ControllerConfig::default()).unwrap();
    c.bind_surface(handles()).unwrap();
    c.load("u").unwrap();
    c.eval_script("s").unwrap();
    c.draw().unwrap();
    assert_eq!(
        *seen.lock().unwrap(),
        vec![
            ControllerEvent::Navigation {
                status: NavigationStatus::Committed,
                url: Some("u".into()),
                http_status: Some(200),
            },
            ControllerEvent::Console {
                level: ConsoleLevel::Debug,
                message: "eval_script executed".into(),
                source: Some("mock".into()),
                line: None,
                column: None,
            },
        ]
    );
}

#[test]
fn in_process_controller_counts_and_refuses_sinks() {
    let mut c = InProcessController::new();
    assert_eq!(
        c.set_event_sink(()),
        Err(ControllerError::Unsupported("event sink not supported"))
    );
    c.initialize(ControllerConfig::default()).unwrap();
    c.bind_surface(handles()).unwrap();
    c.send_input(InputEvent::CharInput { ch: 'x' }).unwrap();
    c.request_draw().unwrap();
    c.draw().unwrap();
    c.draw().unwrap();
    assert_eq!(c.diagnostics(), (1, 1, 2));
    c.shutdown().unwrap();
    assert_eq!(c.load("u"), Err(ControllerError::InvalidState("controller not alive")));
    assert_eq!(c.diagnostics(), (1, 1, 2));
}

#[test]
fn controller_error_texts() {
    let text = |e: ControllerError| e.to_text();
    assert_eq!(text(ControllerError::NotInitialized("x")), "not initialized: x");
    assert_eq!(text(ControllerError::SurfaceNotBound), "surface not bound");
    assert_eq!(text(ControllerError::InvalidState("x")), "invalid state: x");
    assert_eq!(text(ControllerError::Unsupported("x")), "unsupported: x");
    assert_eq!(text(ControllerError::Backend("x")), "backend error: x");
    assert_eq!(text(ControllerError::BackendMsg("y".into())), "backend error: y");
    assert_eq!(
        ControllerCapabilities::default(),
        ControllerCapabilities { fd_passing: false, zero_copy_frames: false, compressed_frames: false }
    );
}

fn init_ack(id: u64) -> Response {
    Response::InitAck {
        in_reply_to: id,
        chosen_version: 1,
        server_name: "photon".into(),
        capabilities: Capabilities {
            fd_passing: true,
            zero_copy_frames: false,
            compressed_frames: true,
            supported_compressed: vec![],
            extra: vec![],
        },
    }
}

fn connected() -> IpcController {
    let mut c = IpcController::new();
    c.initialize(ControllerConfig::default()).unwrap();
    let env = c.server_started(Ok(()), &None, None).unwrap();
    let env = c.handshake_answered(Waited::Replied(init_ack(env.id)), "", &handles()).unwrap();
    c.surface_answered(Waited::Replied(Response::Ack { in_reply_to: env.id }), "").unwrap();
    c
}

#[test]
fn ipc_controller_binds_in_three_steps() {
    let mut c = IpcController::new();
    assert_eq!(c.begin_bind("/global"), Err(NOT_INIT));
    let mut cfg = ControllerConfig::default();
    cfg.external_bin_path = Some("/mine".into());
    cfg.init_scripts = vec!["a".into()];
    cfg.unix_socket_path = Some("/sock".into());
    c.initialize(cfg).unwrap();
    assert_eq!(c.begin_bind("/global"), Ok("/mine".to_string()));
    assert!(!c.is_alive());
    let failed = c.server_started(Err(ControllerError::Backend("child stdin not available")), &None, None);
    assert_eq!(failed, Err(ControllerError::Backend("child stdin not available")));
    assert!(!c.is_alive());
    let hello = c.server_started(Ok(()), &Some("/res".to_string()), Some(9222)).unwrap();
    assert!(c.is_alive());
    assert_eq!((hello.version, hello.id, hello.flags), (1, 1, 0));
    match hello.message {
        Message::Request(Request::Init { client_name, supported, config }) => {
            assert_eq!(client_name, "verso-standalone");
            assert_eq!(supported, VersionRange { min: 1, max: 1 });
            assert_eq!(config.resources_dir.map(|p| p.0), Some("/res".to_string()));
            assert_eq!(config.devtools_port, Some(9222));
            assert_eq!(config.init_scripts, vec!["a", "__ipc_unix_socket_path=/sock"]);
            assert_eq!(config.ipc_tuning, None);
        }
        other => panic!("unexpected message: {:?}", other),
    }
    assert_eq!(c.capabilities(), None);
    let odd = Waited::Replied(Response::Ack { in_reply_to: 1 });
    assert_eq!(
        c.handshake_answered(odd, "Ack { in_reply_to: 1 }", &handles()).unwrap_err(),
        ControllerError::BackendMsg("unexpected response to Init: Ack { in_reply_to: 1 }".into())
    );
    assert_eq!(
        c.handshake_answered(Waited::TimedOut, "", &handles()).unwrap_err(),
        ControllerError::Backend("request timed out")
    );
    let bind = c.handshake_answered(Waited::Replied(init_ack(1)), "", &handles()).unwrap();
    assert_eq!(bind.id, 2);
    let one = Real32 { bits: 1.0f32.to_bits() };
    assert_eq!(
        bind.message,
        Message::Request(Request::BindSurface {
            surface: SurfaceDescriptor::Fallback { width: 0, height: 0, scale_factor: one }
        })
    );
    assert_eq!(
        c.capabilities(),
        Some(ControllerCapabilities { fd_passing: true, zero_copy_frames: false, compressed_frames: true })
    );
    assert_eq!(c.load("u").unwrap_err(), ControllerError::SurfaceNotBound);
    let refused = Waited::Replied(Response::Error {
        in_reply_to: 2,
        code: ErrorCode::SurfaceError,
        message: "no".into(),
    });
    assert_eq!(
        c.surface_answered(refused, "").unwrap_err().to_text(),
        "backend error: bind surface error: SurfaceError: no"
    );
    c.surface_answered(Waited::Replied(Response::Ack { in_reply_to: 2 }), "").unwrap();
    assert_eq!(
        c.begin_bind("/global"),
        Err(ControllerError::InvalidState("bind_surface() called more than once"))
    );
    let mut plain = IpcController::new();
    plain.initialize(ControllerConfig::default()).unwrap();
    assert_eq!(plain.begin_bind("/global"), Ok("/global".to_string()));
    assert!(plain.initialize(ControllerConfig::default()).is_err());
}

fn request(env: Envelope) -> Request {
    match env.message {
        Message::Request(r) => r,
        other => panic!("unexpected message: {:?}", other),
    }
}

#[test]
fn ipc_controller_numbers_its_requests() {
    let mut c = connected();
    let a = c.load("u").unwrap();
    let b = c.eval_script("s").unwrap();
    assert_eq!((a.id, b.id), (3, 4));
    assert_eq!(request(a), Request::Load { url: "u".into() });
    assert_eq!(request(b), Request::EvalScript { source: "s".into(), request_id: None });
    assert_eq!(
        request(c.resize(PhysicalSize { width: 1, height: 2 }).unwrap()),
        Request::Resize { width: 1, height: 2 }
    );
    assert_eq!(request(c.request_draw().unwrap()), Request::RequestDraw);
    assert_eq!(request(c.draw().unwrap()), Request::DrawNow);
    assert_eq!(
        request(c.send_input(InputEvent::KeyDown { key: "Enter" }).unwrap()),
        Request::InputEvent {
            events: vec![IpcInputEvent::KeyDown { key: "Enter".into(), timestamp_us: None }]
        }
    );
    assert_eq!(c.set_visibility(false), Ok(()));
    assert!(!c.visible);
    assert_eq!(c.focus(), Ok(()));
    assert_eq!((c.input_events, c.draws_requested, c.draws_performed), (1, 1, 1));
    assert_eq!(c.next_msg_id(), 9);
    let bye = c.begin_shutdown().unwrap().expect("a live server is asked to end");
    assert_eq!(bye.id, 10);
    assert_eq!(request(bye), Request::Shutdown);
    c.finish_shutdown();
    assert!(!c.is_alive());
    assert_eq!(c.load("u").unwrap_err(), ControllerError::SurfaceNotBound);
    assert_eq!(c.begin_shutdown().unwrap(), None);
    assert_eq!(IpcController::new().begin_shutdown().unwrap_err(), NOT_INIT);
}

#[test]
fn lost_connection_refuses_use() {
    let mut c = connected();
    c.connection_lost();
    assert_eq!(c.load("u").unwrap_err(), ControllerError::InvalidState("controller not alive"));
    assert_eq!(c.last_url, None);
    assert_eq!(c.begin_shutdown().unwrap(), None);
}

#[test]
fn replies_mean_success_or_a_message() {
    let err = Response::Error { in_reply_to: 1, code: ErrorCode::Internal, message: "m".into() };
    let texts: Vec<String> = [
        Operation::BindSurface,
        Operation::Load,
        Operation::EvalScript,
        Operation::Resize,
        Operation::Draw,
    ]
    .into_iter()
    .map(|op| classify_reply(op, &err, "").unwrap_err().to_text())
    .collect();
    assert_eq!(
        texts,
        vec![
            "backend error: bind surface error: Internal: m",
            "backend error: load error: Internal: m",
            "backend error: eval_script error: Internal: m",
            "backend error: resize error: Internal: m",
            "backend error: draw error: Internal: m",
        ]
    );
    for (code, name) in [
        (ErrorCode::InvalidState, "InvalidState"),
        (ErrorCode::Unsupported, "Unsupported"),
        (ErrorCode::BadMessage, "BadMessage"),
    ] {
        let e = Response::Error { in_reply_to: 1, code, message: "".into() };
        assert_eq!(
            classify_reply(Operation::Load, &e, "").unwrap_err().to_text(),
            format!("backend error: load error: {name}: ")
        );
        assert_eq!(format!("{:?}", code), name);
    }
    let odd = init_ack(1);
    let shown = format!("{:?}", odd);
    assert_eq!(
        finish_operation(Operation::Draw, Waited::Replied(odd), &shown).unwrap_err(),
        ControllerError::BackendMsg(format!("unexpected response to DrawNow: {shown}"))
    );
    let w = |w| finish_operation(Operation::Load, w, "").unwrap_err().to_text();
    assert_eq!(w(Waited::NotEncoded("e".into())), "backend error: serialize: e");
    assert_eq!(w(Waited::NotConnected), "invalid state: transport not ready");
    assert_eq!(w(Waited::NoRuntime), "invalid state: tokio runtime not initialized");
    assert_eq!(w(Waited::NotSent), "backend error: send failed");
    assert_eq!(w(Waited::Canceled), "backend error: response channel canceled");
    assert_eq!(w(Waited::TimedOut), "backend error: request timed out");
    let p = |p| finish_post(p).unwrap_err().to_text();
    assert_eq!(finish_post(Posted::Sent), Ok(()));
    assert_eq!(p(Posted::NotEncoded("e".into())), "backend error: serialize: e");
    assert_eq!(p(Posted::NotConnected), "invalid state: transport not ready");
    assert_eq!(p(Posted::NoRuntime), "invalid state: tokio runtime not initialized");
    assert_eq!(p(Posted::NotSent), "backend error: send failed");
}

fn wrap(message: Message) -> Envelope {
    Envelope { version: 1, id: 50, flags: 0, message }
}

#[test]
fn responses_are_delivered_once() {
    let mut shared: SharedState<&'static str> = SharedState::new();
    let mut inbox = FrameInbox::new();
    shared.register(3, "three");
    shared.register(4, "four");
    let resp = || Message::Response(Response::Ack { in_reply_to: 3 });
    match receive(&mut shared, &mut inbox, wrap(resp()), None) {
        Inbound::Deliver { to, response } => {
            assert_eq!(to, "three");
            assert_eq!(response, Response::Ack { in_reply_to: 3 });
        }
        _ => panic!("a waiting sender gets its response"),
    }
    assert!(matches!(receive(&mut shared, &mut inbox, wrap(resp()), None), Inbound::Ignored));
    assert!(matches!(
        receive(&mut shared, &mut inbox, wrap(Message::Request(Request::DrawNow)), None),
        Inbound::Ignored
    ));
    let other = Response::InvokeResult { in_reply_to: 4, ok: true, data: None, error: None };
    match receive(&mut shared, &mut inbox, wrap(Message::Response(other)), None) {
        Inbound::Deliver { to, .. } => assert_eq!(to, "four"),
        _ => panic!("a waiting sender gets its response"),
    }
    assert!(shared.pending.is_empty());
}

fn report(inbox: &mut FrameInbox, e: Event, h: Option<Vec<OpaqueHandle>>) -> (ControllerEvent, Option<FrameCheck>) {
    let mut shared: SharedState<()> = SharedState::new();
    match receive(&mut shared, inbox, wrap(Message::Event(e)), h) {
        Inbound::Report { event, check } => (event, check),
        _ => panic!("events are reported"),
    }
}

#[test]
fn events_are_mapped_for_the_host() {
    let mut inbox = FrameInbox::new();
    for (wire, host) in [
        (WireLevel::Debug, ConsoleLevel::Debug),
        (WireLevel::Info, ConsoleLevel::Info),
        (WireLevel::Warn, ConsoleLevel::Warn),
        (WireLevel::Error, ConsoleLevel::Error),
    ] {
        let e = Event::ConsoleMessage {
            level: wire,
            message: "m".into(),
            source: Some("s".into()),
            line: Some(1),
            column: Some(2),
        };
        let want = ControllerEvent::Console {
            level: host,
            message: "m".into(),
            source: Some("s".into()),
            line: Some(1),
            column: Some(2),
        };
        assert_eq!(report(&mut inbox, e, None), (want, None));
    }
    for (wire, host) in [
        (WireStatus::Started, NavigationStatus::Started),
        (WireStatus::Committed, NavigationStatus::Committed),
        (WireStatus::Finished, NavigationStatus::Finished),
        (WireStatus::Failed, NavigationStatus::Failed),
    ] {
        let e = Event::Navigation { status: wire, url: None, http_status: Some(404) };
        let want = ControllerEvent::Navigation { status: host, url: None, http_status: Some(404) };
        assert_eq!(report(&mut inbox, e, None), (want, None));
    }
    let e = Event::DevToolsPortOpened { port: 6000, url: Some("u".into()) };
    let want = ControllerEvent::DevToolsPortOpened { port: 6000, url: Some("u".into()) };
    assert_eq!(report(&mut inbox, e, None), (want, None));
}

fn plane(token: u64) -> DmabufPlane {
    DmabufPlane { fd: HandleToken(token), offset: 0, stride: 4, plane_index: 0 }
}

fn fds(v: &[u64]) -> Vec<OpaqueHandle> {
    v.iter().map(|n| OpaqueHandle(*n)).collect()
}

#[test]
fn handles_are_filed_under_their_tokens() {
    let mut inbox = FrameInbox::new();
    let d = FrameDescriptor::LinuxDmabuf {
        width: 5,
        height: 6,
        fourcc: 0,
        modifier: 0,
        planes: vec![plane(10), plane(11)],
        fence: Some(HandleToken(12)),
    };
    let e = Event::FrameReady { frame_id: 8, descriptor: d };
    let (event, check) = report(&mut inbox, e, Some(fds(&[100, 101])));
    assert_eq!(event, ControllerEvent::FrameReady { width: 5, height: 6, frame_id: 8 });
    assert_eq!(check, None);
    let mut tokens = inbox.debug_list_pending_handle_tokens();
    tokens.sort();
    assert_eq!(tokens, vec![10, 11]);
    assert_eq!(inbox.consume_handle(11).unwrap().handle, OpaqueHandle(101));
    assert_eq!(
        inbox.consume_handle(11).unwrap_err(),
        ControllerError::InvalidState("handle token not found")
    );
    let one = Event::FrameReady {
        frame_id: 9,
        descriptor: FrameDescriptor::CompressedImage {
            width: 1,
            height: 1,
            format: verso_standalone::ipc_protocol::CompressedFormat::Png,
            payload: PayloadLocator::Handle(HandleToken(20)),
        },
    };
    report(&mut inbox, one.clone(), Some(fds(&[7, 8])));
    assert_eq!(inbox.consume_handle(20).unwrap().handle, OpaqueHandle(7));
    report(&mut inbox, one, Some(vec![]));
    assert_eq!(
        inbox.consume_handle(20).unwrap_err(),
        ControllerError::InvalidState("no handles attached for token")
    );
}

fn shm(format: PixelFormat, size: u64) -> Event {
    Event::FrameReady {
        frame_id: 1,
        descriptor: FrameDescriptor::SharedMemoryImage {
            width: 2,
            height: 2,
            stride: 8,
            format,
            shm: HandleToken(30),
            size,
        },
    }
}

#[test]
fn shared_frames_are_inspected_and_recorded() {
    let mut inbox = FrameInbox::new();
    let (_, check) = report(&mut inbox, shm(PixelFormat::Rgba8888, 16), Some(fds(&[77])));
    let check = check.expect("an RGBA frame with a handle is looked at");
    assert_eq!(
        check,
        FrameCheck { width: 2, height: 2, stride: 8, handle: OpaqueHandle(77), size: 16 }
    );
    assert!(inbox.debug_list_pending_handle_tokens().is_empty());
    assert_eq!(report(&mut inbox, shm(PixelFormat::Rgba8888, 16), None).1, None);
    assert_eq!(report(&mut inbox, shm(PixelFormat::Rgba8888, 0), Some(fds(&[77]))).1, None);
    assert_eq!(report(&mut inbox, shm(PixelFormat::Bgra8888, 16), Some(fds(&[77]))).1, None);
    assert_eq!(inbox.debug_list_pending_handle_tokens(), vec![30]);

    let good = vec![0, 0, 0x80, 0xFF, 1, 0, 0x80, 0xFF, 0, 1, 0x80, 0xFF, 1, 1, 0x80, 0xFF];
    inbox.record(&check, Inspection::Read { data: good.clone() });
    assert!(inbox.last_frame_valid());
    // A frame that ends too early leaves the finding as it was.
    inbox.record(&check, Inspection::Read { data: good[..12].to_vec() });
    assert!(inbox.last_frame_valid());
    assert_eq!(inbox.take_last_frame_bytes(), Some(good.clone()));
    assert_eq!(inbox.take_last_frame_bytes(), None);
    let mut bad = good.clone();
    bad[9] = 7;
    inbox.record(&check, Inspection::Read { data: bad.clone() });
    assert!(!inbox.last_frame_valid());
    assert_eq!(inbox.last_frame_bytes, None);
    inbox.record(&check, Inspection::Read { data: good.clone() });
    inbox.record(&check, Inspection::Unreadable);
    assert!(!inbox.last_frame_valid());
    assert_eq!(inspect_frame(&good, 2, 2, 8), Some(true));
    assert_eq!(inspect_frame(&bad[..10], 2, 2, 8), Some(false));
    assert_eq!(inspect_frame(&good[..9], 2, 2, 8), None);
    assert_eq!(inspect_frame(&[], 0, 5, 8), Some(true));
}

#[test]
fn input_events_keep_their_values_on_the_wire() {
    let f = |x: f64| Real64 { bits: x.to_bits() };
    let g = |x: f32| Real32 { bits: x.to_bits() };
    assert_eq!(
        map_input_event(InputEvent::MouseMove { x: f(1.5), y: f(-2.0) }),
        IpcInputEvent::MouseMove { x: f(1.5), y: f(-2.0), timestamp_us: None }
    );
    assert_eq!(
        map_input_event(InputEvent::Scroll { delta_x: g(0.5), delta_y: g(1.0), is_precise: true }),
        IpcInputEvent::Scroll {
            delta_x: g(0.5),
            delta_y: g(1.0),
            is_precise: true,
            timestamp_us: None
        }
    );
    let button = |n| match map_input_event(InputEvent::MouseButton {
        button: n,
        state: ButtonState::Released,
    }) {
        IpcInputEvent::MouseButton { button, .. } => button,
        other => panic!("unexpected event: {:?}", other),
    };
    assert_eq!(button(1), MouseButton::Left);
    assert_eq!(button(2), MouseButton::Right);
    assert_eq!(button(3), MouseButton::Middle);
    assert_eq!(button(4), MouseButton::Other(4));
    assert_eq!(
        map_input_event(InputEvent::KeyUp { key: "Tab" }),
        IpcInputEvent::KeyUp { key: "Tab".into(), timestamp_us: None }
    );
    assert_eq!(
        map_input_event(InputEvent::FocusChanged { focused: true }),
        IpcInputEvent::FocusChanged { focused: true, timestamp_us: None }
    );
    assert_eq!(
        map_input_event(InputEvent::PointerLeft),
        IpcInputEvent::PointerLeft { timestamp_us: None }
    );
}

#[test]
fn explicit_settings_come_before_global_ones() {
    let mut cfg = ControllerConfig::default();
    let g = to_proto_config(&cfg, &Some("/g".to_string()), Some(1));
    assert_eq!(g.resources_dir.map(|p| p.0), Some("/g".to_string()));
    assert_eq!(g.devtools_port, Some(1));
    cfg.resources_dir = Some("/e".into());
    cfg.devtools_port = Some(0);
    let e = to_proto_config(&cfg, &Some("/g".to_string()), Some(1));
    assert_eq!(e.resources_dir.map(|p| p.0), Some("/e".to_string()));
    assert_eq!(e.devtools_port, Some(0));
    assert_eq!(to_proto_config(&ControllerConfig::default(), &None, None).devtools_port, None);
}

#[test]
fn shared_settings_are_kept() {
    let mut s = Settings::new();
    assert_eq!(s.get_verso_resource_directory(), None);
    assert_eq!(s.get_verso_devtools_port(), None);
    s.set_verso_resource_directory("/a");
    s.set_verso_resource_directory("/b");
    s.set_verso_devtools_port(9);
    assert_eq!(s.get_verso_resource_directory(), Some("/b".to_string()));
    assert_eq!(s.get_verso_devtools_port(), Some(9));
    assert_eq!(s.get_verso_path(&Some("/beside".to_string())), "/beside");
    assert_eq!(s.get_verso_path(&Some("/other".to_string())), "/beside");
    let mut t = Settings::new();
    t.set_verso_path("/set");
    assert_eq!(t.get_verso_path(&None), "/set");
}

#[test]
fn registry_routes_commands_and_events() {
    let mut r: WindowRegistry<&'static str, u8> = WindowRegistry::new();
    let h = WinitWindowHandle::new(7);
    assert_eq!(h.id(), 7);
    assert_eq!(r.add_subscriber(h, 1), Err(WinitRuntimeError::UnknownWindow(7)));
    r.window_created(7, "seven");
    r.window_created(8, "eight");
    assert_eq!(r.add_subscriber(h, 1), Ok(()));
    assert_eq!(r.add_subscriber(h, 2), Ok(()));
    r.window_created(7, "seven again");
    assert_eq!(r.window_subscribers(h), Ok(&vec![1, 2]));
    let act = |e: Effect<&'static str, u32>| match e {
        Effect::Act { id, action } => Some((id, action)),
        _ => None,
    };
    assert!(matches!(
        act(r.handle_internal_command(h.request_redraw())),
        Some((7, WindowAction::RequestRedraw))
    ));
    match act(r.handle_internal_command(h.set_title("T"))) {
        Some((7, WindowAction::SetTitle(t))) => assert_eq!(t, "T"),
        _ => panic!("the title is set"),
    }
    assert!(matches!(
        act(r.handle_internal_command(h.set_cursor_icon(5))),
        Some((7, WindowAction::SetCursorIcon(5)))
    ));
    assert!(matches!(
        act(r.handle_internal_command(h.set_cursor_visible(false))),
        Some((7, WindowAction::SetCursorVisible(false)))
    ));
    assert!(matches!(
        act(r.handle_internal_command(h.set_cursor_grab(true))),
        Some((7, WindowAction::SetCursorGrab(GrabMode::Confined)))
    ));
    assert!(matches!(
        act(r.handle_internal_command(h.set_cursor_grab(false))),
        Some((7, WindowAction::SetCursorGrab(GrabMode::Free)))
    ));
    let gone: Effect<&'static str, u32> =
        r.handle_internal_command(InternalCommand::RequestRedraw(99));
    assert!(matches!(gone, Effect::Nothing));
    assert!(matches!(r.window_event(7, WindowEventKind::RedrawRequested), Reaction::Draw));
    assert!(matches!(r.window_event(7, WindowEventKind::Other), Reaction::Tell));
    match r.handle_internal_command(h.close::<u32>()) {
        Effect::Removed { window, exit } => {
            assert_eq!(window, Some("seven again"));
            assert!(!exit);
        }
        _ => panic!("the window is closed"),
    }
    assert_eq!(r.window_subscribers(h), Err(WinitRuntimeError::UnknownWindow(7)));
    match r.window_event(8, WindowEventKind::CloseRequested) {
        Reaction::Removed { window, exit } => {
            assert_eq!(window, Some("eight"));
            assert!(exit);
        }
        _ => panic!("the last window is closed"),
    }
    match r.handle_internal_command(InternalCommand::<u32>::CloseWindow(1)) {
        Effect::Removed { window, exit } => assert!(window.is_none() && exit),
        _ => panic!("closing an unknown window with none left ends the loop"),
    }
}

#[test]
fn runtime_errors_and_hosts() {
    assert_eq!(
        post_outcome(false, true, false),
        Err(WinitRuntimeError::NotInitialized("event loop proxy not available"))
    );
    assert_eq!(post_outcome(true, true, true), Ok(()));
    assert_eq!(
        post_outcome(true, false, false),
        Err(WinitRuntimeError::Backend("failed to post event"))
    );
    assert_eq!(
        post_outcome(true, false, true),
        Err(WinitRuntimeError::Backend("failed to post user event"))
    );
    assert_eq!(
        WinitRuntimeError::UnknownWindow(3).to_text("WindowId(3)"),
        "unknown window: WindowId(3)"
    );
    assert_eq!(WinitRuntimeError::NotInitialized("x").to_text(""), "not initialized: x");
    assert_eq!(WinitRuntimeError::Backend("x").to_text(""), "backend error: x");
    let mut host = VersoWebviewHost::new(WinitWindowHandle::new(4));
    assert_eq!(host.window().id(), 4);
    assert_eq!(host.bind_native_surface(handles()), Ok(()));
    assert_eq!(host.load("u"), Ok(()));
    assert_eq!(host.eval_script("s"), Ok(()));
    assert_eq!(host.resize(PhysicalSize { width: 1, height: 1 }), Ok(()));
    assert_eq!(host.draw(), Ok(()));
}

#[test]
fn buttons_and_keys_are_mapped() {
    let code = map_winit_mouse_button;
    assert_eq!(code(HostMouseButton::Left), 1);
    assert_eq!(code(HostMouseButton::Right), 2);
    assert_eq!(code(HostMouseButton::Middle), 3);
    assert_eq!(code(HostMouseButton::Back), 4);
    assert_eq!(code(HostMouseButton::Forward), 5);
    assert_eq!(code(HostMouseButton::Other(0)), 10);
    assert_eq!(code(HostMouseButton::Other(244)), 254);
    assert_eq!(code(HostMouseButton::Other(245)), 10);
    assert_eq!(code(HostMouseButton::Other(u16::MAX)), 10 + (65535u32 % 245) as u8);
    assert_eq!(map_winit_key(&Key::Character), None);
    assert_eq!(map_winit_key(&Key::Named(NamedKey::Enter)), Some("Enter"));
    assert_eq!(map_winit_key(&Key::Named(NamedKey::F12)), Some("F12"));
    assert_eq!(map_winit_key(&Key::Named(NamedKey::PageDown)), Some("PageDown"));
    assert_eq!(map_winit_key(&Key::Named(NamedKey::Other)), Some("Unmapped"));
    assert_eq!(map_winit_key(&Key::Dead), Some("Dead"));
    assert_eq!(map_winit_key(&Key::Unidentified), Some("Unidentified"));
}
