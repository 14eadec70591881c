use serde_json::Value;
use std::sync::{Arc, Mutex};
use verso_standalone::dioxus_engine::{
    byte_of, hash_page, hash_to_rgba, normalize_load_input, paint, DioxusEngine, Shades, BLANK_PAGE,
};
use verso_standalone::engine::{
    choose_devtools, DemoEngine, Engine, EngineCapabilities, EngineError, EngineFrame, EngineInit,
};
use verso_standalone::ipc_controller::inspect_frame;
use verso_standalone::ipc_protocol::{
    CompressedFormat, ConsoleLevel, ControllerConfig, Envelope, ErrorCode, Event, FrameDescriptor,
    HandleToken, IpcInputEvent, Message, NavigationStatus, PathString, PayloadLocator, PixelFormat,
    Real32, Request, Response, SurfaceDescriptor, VersionRange, PROTOCOL_MAX_VERSION,
    PROTOCOL_MIN_VERSION, PROTOCOL_VERSION,
};
use verso_standalone::ipc_transport::OpaqueHandle;
use verso_standalone::server::{
    after_read, choose_engine, describe_frame, describe_png, discover_servo, engine_name,
    finish_export, handle_request, hello, incoming,
    map_proto_event_to_adapter, pointer_target, resume_request, select_transport, supports_version,
    take_id, Candidate, EngineKind, Incoming, Outgoing, Received, Rest, ServerStep, SlotPointers,
    Step, TransportMode,
};
use verso_standalone::servo_engine::{
    load_target, normalize_url, sanitize_scale, worker_refusal, ServoEngine, ServoWorkerEngine,
    WorkerCommand, WorkerReply,
};
use verso_standalone::tauri_ipc_adapter::{
    AdapterError, ChannelAdapter, CommandRegistry, CommandResult, EventMessage, ServedCommands,
};

type Handler = Box<dyn Fn(Value) -> CommandResult>;
type Registry = CommandRegistry<Handler>;

fn fallback(width: u32, height: u32) -> SurfaceDescriptor {
    SurfaceDescriptor::Fallback {
        width,
        height,
        scale_factor: Real32 { bits: 1.0f32.to_bits() },
    }
}

struct Server<E> {
    engine: E,
    commands: Option<ServedCommands<Handler>>,
    next_id: u64,
    handles: bool,
}

impl<E: Engine> Server<E> {
    fn new(engine: E, handles: bool) -> Self {
        Server { engine, commands: None, next_id: 1, handles }
    }

    fn ask_as(&mut self, version: u16, id: u64, req: Request) -> (Response, Vec<Outgoing>) {
        let (env, mut rest) = handle_request(
            &mut self.engine,
            &mut self.commands,
            &mut self.next_id,
            "photon",
            self.handles,
            version,
            id,
            req,
        );
        let resp = match env.message {
            Message::Response(r) => r,
            other => panic!("unexpected message: {:?}", other),
        };
        let mut sent = Vec::new();
        loop {
            match resume_request(&mut self.engine, &mut self.next_id, self.handles, rest) {
                Step::Finished => return (resp, sent),
                Step::Send { out, rest: more } => {
                    sent.push(out);
                    rest = more;
                }
                Step::Share { export, on_request } => {
                    let fd = Some(OpaqueHandle(41));
                    let out =
                        finish_export(&mut self.next_id, self.handles, on_request, &export, fd);
                    sent.extend(out);
                    return (resp, sent);
                }
            }
        }
    }

    fn ask(&mut self, id: u64, req: Request) -> (Response, Vec<Outgoing>) {
        self.ask_as(PROTOCOL_VERSION, id, req)
    }
}

fn event(o: &Outgoing) -> Event {
    match &o.envelope.message {
        Message::Event(e) => e.clone(),
        other => panic!("unexpected message: {:?}", other),
    }
}

fn config() -> ControllerConfig {
    ControllerConfig {
        resources_dir: None,
        devtools_port: Some(0),
        user_agent: Some("verso-integration-test".to_string()),
        init_scripts: vec![],
        ipc_tuning: None,
    }
}

fn init(min: u16, max: u16) -> Request {
    Request::Init {
        client_name: "ipc_roundtrip_test".to_string(),
        supported: VersionRange { min, max },
        config: config(),
    }
}

#[test]
fn ipc_roundtrip_init_bind_load_and_events() {
    let mut server = Server::new(ServoEngine::new(), false);
    let (resp, sent) = server.ask(1, init(PROTOCOL_MIN_VERSION, PROTOCOL_MAX_VERSION));
    match resp {
        Response::InitAck { in_reply_to, server_name, chosen_version, capabilities } => {
            assert_eq!(in_reply_to, 1, "InitAck correlation id");
            assert_eq!(server_name, "photon");
            assert_eq!(chosen_version, 1);
            assert!(capabilities.compressed_frames);
            assert!(!capabilities.fd_passing && !capabilities.zero_copy_frames);
            assert_eq!(capabilities.supported_compressed, vec![CompressedFormat::Png]);
            assert!(capabilities.extra.is_empty());
        }
        other => panic!("unexpected response to Init: {:?}", other),
    }
    assert!(sent.is_empty());

    let (resp, _) = server.ask(2, Request::BindSurface { surface: fallback(800, 600) });
    assert_eq!(resp, Response::Ack { in_reply_to: 2 });

    let test_url = "about:blank";
    let (resp, sent) = server.ask(3, Request::Load { url: test_url.to_string() });
    assert_eq!(resp, Response::Ack { in_reply_to: 3 });
    assert_eq!(sent.iter().map(|o| o.envelope.id).collect::<Vec<_>>(), vec![4, 5]);
    match event(&sent[0]) {
        Event::ConsoleMessage { level, message, source, .. } => {
            assert_eq!(level, ConsoleLevel::Info);
            assert!(message.contains("Load requested"));
            assert_eq!(message, "Load requested: about:blank");
            assert_eq!(source.as_deref(), Some("photon"));
        }
        other => panic!("expected at least one ConsoleMessage event: {:?}", other),
    }
    match event(&sent[1]) {
        Event::Navigation { status, url, http_status } => {
            assert_eq!(status, NavigationStatus::Committed);
            assert_eq!(url.as_deref(), Some(test_url));
            assert_eq!(http_status, Some(200));
        }
        other => panic!("expected a Navigation::Committed event for the loaded URL: {:?}", other),
    }

    let (resp, sent) = server.ask(4, Request::Shutdown);
    assert_eq!(resp, Response::Ack { in_reply_to: 4 });
    assert!(sent.is_empty());
    assert_eq!(server.next_id, 7);
}

#[test]
fn event_propagation_maps_and_emits_via_adapter() {
    let mut server = Server::new(DemoEngine::new(), false);
    server.ask(1, init(1, 1));
    let (_, sent) = server.ask(2, Request::Load { url: "about:blank".to_string() });
    let seen: Arc<Mutex<Vec<(String, Value)>>> = Arc::new(Mutex::new(Vec::new()));
    let mut adapter: ChannelAdapter<Box<dyn Fn(&Value)>, Box<dyn Fn(&EventMessage)>> =
        ChannelAdapter::new();
    for name in ["console", "navigation"] {
        let seen = Arc::clone(&seen);
        adapter.subscribe(
            name,
            Box::new(move |p: &Value| seen.lock().unwrap().push((name.to_string(), p.clone()))),
        );
    }
    for o in &sent {
        let (name, payload) = o.publish.as_ref().expect("load events are published");
        adapter.emit_event(name, payload);
    }
    let seen = seen.lock().unwrap();
    assert_eq!(seen[0].0, "console");
    assert_eq!(seen[0].1["message"], "Load requested: about:blank");
    assert_eq!(seen[0].1["level"], "info");
    assert_eq!(seen[0].1["source"], "photon");
    assert!(seen[0].1["line"].is_null() && seen[0].1["column"].is_null());
    assert_eq!(seen[1].0, "navigation");
    assert_eq!(seen[1].1["status"], "committed");
    assert_eq!(seen[1].1["url"], "about:blank");
    assert_eq!(seen[1].1["http_status"], 200);
}

#[test]
fn zero_copy_memfd_unix_socket_frame_ready_with_fd() {
    let mut server = Server::new(DemoEngine::with_zero_copy(), true);
    let (resp, _) = server.ask(1, init(1, 1));
    match resp {
        Response::InitAck { capabilities, .. } => {
            assert!(capabilities.fd_passing, "fd_passing should be true for unix-socket transport");
            assert!(capabilities.zero_copy_frames, "zero_copy_frames should be true");
        }
        other => panic!("unexpected response to Init: {:?}", other),
    }
    server.ask(2, Request::BindSurface { surface: fallback(64, 64) });
    let before = server.next_id;
    let (env, rest) = handle_request(
        &mut server.engine,
        &mut server.commands,
        &mut server.next_id,
        "photon",
        true,
        1,
        3,
        Request::RequestDraw,
    );
    assert_eq!(env.message, Message::Response(Response::Ack { in_reply_to: 3 }));
    assert_eq!(env.id, before);
    let (export, on_request) =
        match resume_request(&mut server.engine, &mut server.next_id, true, rest) {
            Step::Share { export, on_request } => (export, on_request),
            _ => panic!("a shared frame is exported first"),
        };
    let out = finish_export(&mut server.next_id, true, on_request, &export, Some(OpaqueHandle(9)))
        .expect("the frame is announced");
    assert_eq!(out.handles, vec![OpaqueHandle(9)]);
    match event(&out) {
        Event::FrameReady { frame_id, descriptor } => {
            assert_eq!(frame_id, out.envelope.id);
            match descriptor {
                FrameDescriptor::SharedMemoryImage { width, height, stride, format, shm, size } => {
                    assert_eq!(width, 64);
                    assert_eq!(height, 64);
                    assert_eq!(stride, 64 * 4);
                    assert_eq!(format, PixelFormat::Rgba8888);
                    assert!(shm.0 > 0, "HandleToken must be non-zero");
                    assert_eq!(size, (stride as u64) * (height as u64));
                }
                other => panic!(
                    "unexpected FrameDescriptor (expected SharedMemoryImage): {:?}",
                    other
                ),
            }
        }
        other => panic!("unexpected message (expected FrameReady event): {:?}", other),
    }
    for y in 0..64usize {
        for x in 0..64usize {
            let idx = y * 256 + x * 4;
            assert_eq!(export.bytes[idx], x as u8, "R at ({x},{y})");
            assert_eq!(export.bytes[idx + 1], y as u8, "G at ({x},{y})");
            assert_eq!(export.bytes[idx + 2], 0x80, "B at ({x},{y})");
            assert_eq!(export.bytes[idx + 3], 0xFF, "A at ({x},{y})");
        }
    }
    assert_eq!(inspect_frame(&export.bytes, 64, 64, 256), Some(true));
    // Memory that cannot be had is no frame: a scheduled draw says so, an immediate one does not.
    let failed = finish_export(&mut server.next_id, true, true, &export, None).unwrap();
    match event(&failed) {
        Event::ConsoleMessage { message, .. } => {
            assert_eq!(message, "Draw requested (no frame produced)")
        }
        other => panic!("unexpected event: {:?}", other),
    }
    let id = server.next_id;
    assert!(finish_export(&mut server.next_id, true, false, &export, None).is_none());
    assert_eq!(server.next_id, id);
    let (resp, _) = server.ask(9, Request::Shutdown);
    assert_eq!(resp, Response::Ack { in_reply_to: 9 });
}

#[test]
fn zero_copy_memfd_unix_socket_frame_ready_with_fd_skipped() {
    println!("skipped: requires unix + zero_copy feature");
}

#[test]
fn handshakes_without_a_common_version_are_refused() {
    let mut server = Server::new(DemoEngine::new(), true);
    let (resp, sent) = server.ask(5, init(2, 10));
    assert_eq!(
        resp,
        Response::Error {
            in_reply_to: 5,
            code: ErrorCode::Unsupported,
            message: "no compatible protocol version in range 2-10".to_string(),
        }
    );
    assert!(sent.is_empty());
    assert_eq!(server.engine.user_agent, None);
    // A newer peer is answered in our own version, an older one in its own.
    assert!(matches!(
        server.ask_as(9, 6, init(1, 9)).0,
        Response::InitAck { chosen_version: 1, .. }
    ));
    assert!(matches!(
        server.ask_as(0, 7, init(0, 9)).0,
        Response::InitAck { chosen_version: 0, .. }
    ));
    assert!(matches!(server.ask_as(0, 7, init(1, 9)).0, Response::Error { .. }));
    assert_eq!(server.engine.user_agent.as_deref(), Some("verso-integration-test"));
    assert!(supports_version(VersionRange::default(), 1));
    assert!(!supports_version(VersionRange { min: 3, max: 2 }, 2));
}

#[test]
fn scripts_sizes_and_inputs_are_acknowledged() {
    let mut server = Server::new(DemoEngine::new(), false);
    let (resp, sent) =
        server.ask(1, Request::EvalScript { source: "1+1".into(), request_id: Some(4) });
    assert_eq!(resp, Response::Ack { in_reply_to: 1 });
    assert_eq!(
        event(&sent[0]),
        Event::ConsoleMessage {
            level: ConsoleLevel::Debug,
            message: "EvalScript received".into(),
            source: Some("photon".into()),
            line: None,
            column: None,
        }
    );
    assert_eq!(sent.len(), 1);
    let (resp, _) = server.ask(2, Request::Resize { width: 0, height: 7 });
    assert_eq!(resp, Response::Ack { in_reply_to: 2 });
    assert_eq!((server.engine.width, server.engine.height, server.engine.stride), (1, 7, 4));
    let events = vec![IpcInputEvent::PointerEntered { timestamp_us: None }; 3];
    let (resp, _) = server.ask(3, Request::InputEvent { events });
    assert_eq!(resp, Response::Ack { in_reply_to: 3 });
    assert_eq!(server.engine.input_events, 3);
    let (_, sent) = server.ask(4, Request::DrawNow);
    match event(&sent[0]) {
        Event::FrameReady { frame_id, descriptor } => {
            assert_eq!(frame_id, sent[0].envelope.id);
            match descriptor {
                FrameDescriptor::CompressedImage { width, height, format, payload } => {
                    assert_eq!((width, height), (1, 7));
                    assert_eq!(format, CompressedFormat::Png);
                    match payload {
                        PayloadLocator::Inline(b) => {
                            let picture = image::load_from_memory(&b).unwrap().to_rgba8();
                            assert_eq!(picture.dimensions(), (1, 7));
                            assert_eq!(picture.get_pixel(0, 5).0, [0, 5, 0x80, 0xFF]);
                        }
                        other => panic!("unexpected payload: {:?}", other),
                    }
                }
                other => panic!("unexpected descriptor: {:?}", other),
            }
        }
        other => panic!("unexpected event: {:?}", other),
    }
    assert!(sent[0].publish.is_none());
    assert!(sent[0].handles.is_empty());
}

#[test]
fn commands_are_served_where_they_are_registered() {
    let mut server = Server::new(DemoEngine::new(), false);
    let invoke = |command: &str, payload: &[u8], request_id: Option<u64>| Request::Invoke {
        command: command.to_string(),
        payload: payload.to_vec(),
        request_id,
    };
    assert_eq!(
        server.ask(1, invoke("hello", b"1", Some(8))).0,
        Response::InvokeResult {
            in_reply_to: 1,
            ok: false,
            data: None,
            error: Some("invoke not supported (tauri_ipc feature disabled)".into()),
        }
    );
    let mut reg: Registry = CommandRegistry::new();
    reg.register("hello", Box::new(hello));
    reg.register("fail", Box::new(|_| Err(AdapterError::Handler("boom".into()))));
    let called = Arc::new(Mutex::new(0));
    let count = Arc::clone(&called);
    reg.register(
        "count",
        Box::new(move |v| {
            *count.lock().unwrap() += 1;
            Ok(v)
        }),
    );
    server.commands = Some(ServedCommands::new(reg));
    server.ask(9, invoke("count", b"1", None));
    server.ask(10, invoke("none", b"1", None));
    assert_eq!(*called.lock().unwrap(), 1);
    let ok = |id: u64, data: &[u8]| Response::InvokeResult {
        in_reply_to: id,
        ok: true,
        data: Some(data.to_vec()),
        error: None,
    };
    assert_eq!(server.ask(2, invoke("hello", b"{ \"a\" : [1, 2] }", Some(8))).0, ok(8, b"{\"a\":[1,2]}"));
    assert_eq!(server.ask(3, invoke("hello", b"", None)).0, ok(3, b"null"));
    assert_eq!(server.ask(4, invoke("hello", b"{broken", None)).0, ok(4, b"null"));
    assert_eq!(
        server.ask(5, invoke("fail", b"1", None)).0,
        Response::InvokeResult { in_reply_to: 5, ok: false, data: None, error: Some("boom".into()) }
    );
    assert_eq!(
        server.ask(6, invoke("nope", b"1", None)).0,
        Response::InvokeResult {
            in_reply_to: 6,
            ok: false,
            data: None,
            error: Some("unknown command: nope".into()),
        }
    );
}

#[test]
fn ids_saturate() {
    let mut id = u64::MAX - 1;
    assert_eq!(take_id(&mut id), u64::MAX - 1);
    assert_eq!(take_id(&mut id), u64::MAX);
    assert_eq!(take_id(&mut id), u64::MAX);
}

#[test]
fn bitmaps_by_value_travel_as_png_files() {
    let bitmap = |size: (u32, u32, u32), format: PixelFormat, bytes: Vec<u8>| {
        let (width, height, stride) = size;
        EngineFrame::SharedMemoryInline { width, height, stride, format, bytes }
    };
    let inline = |format: PixelFormat, bytes: Vec<u8>| bitmap((2, 1, 8), format, bytes);
    let payload = |frame: EngineFrame| match describe_frame(frame, HandleToken(5)).unwrap().0 {
        FrameDescriptor::CompressedImage { payload: PayloadLocator::Inline(b), .. } => b,
        other => panic!("unexpected descriptor: {:?}", other),
    };
    let pixels = vec![1, 2, 3, 4, 5, 6, 7, 8];
    for (format, expected) in [
        (PixelFormat::Rgba8888, vec![1, 2, 3, 4, 5, 6, 7, 8]),
        (PixelFormat::Bgra8888, vec![3, 2, 1, 4, 7, 6, 5, 8]),
        (PixelFormat::Rgbx8888, vec![1, 2, 3, 255, 5, 6, 7, 255]),
        (PixelFormat::Bgrx8888, vec![3, 2, 1, 255, 7, 6, 5, 255]),
    ] {
        let (d, h) = describe_frame(inline(format, pixels.clone()), HandleToken(5)).unwrap();
        assert!(h.is_empty());
        match d {
            FrameDescriptor::CompressedImage {
                width: 2,
                height: 1,
                format: CompressedFormat::Png,
                payload: PayloadLocator::Inline(b),
            } => assert_eq!(image::load_from_memory(&b).unwrap().to_rgba8().into_raw(), expected),
            other => panic!("unexpected descriptor: {:?}", other),
        }
    }
    let padded = vec![1, 2, 3, 4, 9, 9, 5, 6, 7, 8];
    let file = payload(bitmap((1, 2, 6), PixelFormat::Rgba8888, padded));
    let picture = image::load_from_memory(&file).unwrap().to_rgba8();
    assert_eq!(picture.dimensions(), (1, 2));
    assert_eq!(picture.into_raw(), vec![1, 2, 3, 4, 5, 6, 7, 8]);
    assert_eq!(payload(inline(PixelFormat::Rgba16f, pixels.clone())), pixels);
    assert_eq!(payload(inline(PixelFormat::Rgba8888, vec![0; 7])), vec![0; 7]);
    assert!(payload(bitmap((0, 0, 0), PixelFormat::Rgba8888, vec![])).is_empty());
    assert!(describe_png(2, 1, None).is_none());
}

#[test]
fn frames_are_described_with_their_handles() {
    let t = HandleToken(5);
    let planes = vec![
        verso_standalone::engine::DmabufPlaneHandle {
            fd: OpaqueHandle(1),
            offset: 2,
            stride: 3,
            plane_index: 0,
        },
        verso_standalone::engine::DmabufPlaneHandle {
            fd: OpaqueHandle(4),
            offset: 5,
            stride: 6,
            plane_index: 1,
        },
    ];
    let (d, h) = describe_frame(
        EngineFrame::LinuxDmabuf {
            width: 1,
            height: 2,
            fourcc: 3,
            modifier: 4,
            planes,
            fence: Some(OpaqueHandle(9)),
        },
        t,
    )
    .unwrap();
    assert_eq!(h, vec![OpaqueHandle(1), OpaqueHandle(4), OpaqueHandle(9)]);
    match d {
        FrameDescriptor::LinuxDmabuf { planes, fence, .. } => {
            assert_eq!(planes.len(), 2);
            assert!(planes.iter().all(|p| p.fd == t));
            assert_eq!((planes[1].offset, planes[1].stride, planes[1].plane_index), (5, 6, 1));
            assert_eq!(fence, Some(t));
        }
        other => panic!("unexpected descriptor: {:?}", other),
    }
    let (d, h) = describe_frame(
        EngineFrame::WindowsDxgiSharedHandle { width: 1, height: 2, dxgi_format: 3, handle_value: 77 },
        t,
    )
    .unwrap();
    assert_eq!(h, vec![OpaqueHandle(77)]);
    assert_eq!(
        d,
        FrameDescriptor::WindowsDxgiSharedHandle { width: 1, height: 2, dxgi_format: 3, handle: t }
    );
    let (d, h) = describe_frame(
        EngineFrame::MacOsIoSurface { width: 1, height: 2, pixel_format: 3, io_surface_id: 8 },
        t,
    )
    .unwrap();
    assert!(h.is_empty());
    assert_eq!(
        d,
        FrameDescriptor::MacOsIoSurface { width: 1, height: 2, pixel_format: 3, io_surface: t }
    );
    let (d, _) = describe_frame(
        EngineFrame::CompressedImage {
            width: 1,
            height: 2,
            format: CompressedFormat::Webp,
            data: vec![1],
        },
        t,
    )
    .unwrap();
    assert_eq!(
        d,
        FrameDescriptor::CompressedImage {
            width: 1,
            height: 2,
            format: CompressedFormat::Webp,
            payload: PayloadLocator::Inline(vec![1]),
        }
    );
}

#[test]
fn events_are_published_by_name() {
    let port = Event::DevToolsPortOpened { port: 6000, url: None };
    let (name, v) = map_proto_event_to_adapter(&port).unwrap();
    assert_eq!(name, "devtools_port_opened");
    assert_eq!(v["port"], 6000);
    assert!(v["url"].is_null());
    assert_eq!(v.as_object().unwrap().len(), 2);
    for (s, n) in [
        (NavigationStatus::Started, "started"),
        (NavigationStatus::Finished, "finished"),
        (NavigationStatus::Failed, "failed"),
    ] {
        let e = Event::Navigation { status: s, url: Some("u".into()), http_status: None };
        let (_, v) = map_proto_event_to_adapter(&e).unwrap();
        assert_eq!(v["status"], n);
        assert!(v["http_status"].is_null());
    }
    for (l, n) in [(ConsoleLevel::Warn, "warn"), (ConsoleLevel::Error, "error"), (ConsoleLevel::Debug, "debug")] {
        let e = Event::ConsoleMessage {
            level: l,
            message: "m".into(),
            source: None,
            line: Some(3),
            column: Some(4),
        };
        let (name, v) = map_proto_event_to_adapter(&e).unwrap();
        assert_eq!(name, "console");
        assert_eq!(v["level"], n);
        assert_eq!((v["line"].as_u64(), v["column"].as_u64()), (Some(3), Some(4)));
    }
}

#[test]
fn only_requests_are_served() {
    let env = |message| Envelope { version: 3, id: 9, flags: 1, message };
    match incoming(env(Message::Request(Request::DrawNow))) {
        Incoming::Request { version, id, request } => {
            assert_eq!((version, id), (3, 9));
            assert_eq!(request, Request::DrawNow);
        }
        Incoming::Ignored => panic!("requests are served"),
    }
    assert!(matches!(
        incoming(env(Message::Response(Response::Ack { in_reply_to: 1 }))),
        Incoming::Ignored
    ));
    assert_eq!(select_transport(Some("/s".into()), true), TransportMode::UnixSocket("/s".into()));
    assert_eq!(select_transport(Some("/s".into()), false), TransportMode::Stdio);
    assert_eq!(select_transport(None, true), TransportMode::Stdio);
    assert_eq!(PathString::from("p"), PathString("p".to_string()));
    assert_eq!(PathString::from("q".to_string()).0, "q");
}

#[test]
fn engines_are_chosen_by_name() {
    let c = |n: &str, d| choose_engine(&Some(n.to_string()), d);
    assert_eq!(choose_engine(&None, true), EngineKind::Servo);
    assert_eq!(c("DeMo", false), EngineKind::Demo);
    assert_eq!(c("DIOXUS", true), EngineKind::Dioxus);
    assert_eq!(c("dioxus", false), EngineKind::Servo);
    assert_eq!(c("servo", true), EngineKind::Servo);
    assert_eq!(c("demo ", true), EngineKind::Servo);
}

fn at(path: &str, exists: bool) -> Option<Candidate> {
    Some(Candidate { path: path.to_string(), exists })
}

#[test]
fn pointer_discovery_uses_current_pointer_file() {
    let slots = vec![
        SlotPointers { current: at("/gone", false), latest: None },
        SlotPointers { current: at("/cur", true), latest: at("/latest", true) },
    ];
    assert_eq!(discover_servo(&None, &None, &None, &slots).as_deref(), Some("/cur"));
    assert_eq!(discover_servo(&at("/cli", true), &at("/env", true), &None, &slots).as_deref(), Some("/cli"));
    assert_eq!(discover_servo(&at("/cli", false), &at("/env", true), &None, &slots).as_deref(), Some("/env"));
    assert_eq!(discover_servo(&None, &None, &at("/ptr", true), &slots).as_deref(), Some("/ptr"));
    assert_eq!(pointer_target(" /opt/servo \n"), "/opt/servo");
    assert_eq!(pointer_target("\u{3000}/a b\u{2028}"), "/a b");
}

#[test]
fn pointer_discovery_uses_latest_json_pointer_file() {
    let slots = vec![SlotPointers { current: at("/cur", false), latest: at("/latest", true) }];
    assert_eq!(discover_servo(&None, &None, &None, &slots).as_deref(), Some("/latest"));
    assert_eq!(discover_servo(&None, &None, &None, &vec![]), None);
}

#[test]
fn demo_engine_records_and_draws() {
    let mut e = DemoEngine::new();
    assert!(e.drawable());
    e.load("u").unwrap();
    assert_eq!(e.last_url.as_deref(), Some("u"));
    e.bind_surface(&SurfaceDescriptor::X11 { window: 1, display: None }).unwrap();
    assert_eq!((e.width, e.height, e.stride), (64, 64, 256));
    e.bind_surface(&fallback(0, 300)).unwrap();
    assert_eq!((e.width, e.height, e.stride), (1, 300, 4));
    e.ensure_size();
    let bytes = e.make_rgba_gradient();
    assert_eq!(bytes.len(), 1200);
    assert_eq!(&bytes[257 * 4..258 * 4], &[0, 1, 0x80, 0xFF]);
    match e.draw_now().unwrap() {
        Some(EngineFrame::SharedMemoryInline { width, height, stride, format, bytes }) => {
            assert_eq!((width, height, stride), (1, 300, 4));
            assert_eq!(format, PixelFormat::Rgba8888);
            assert_eq!(inspect_frame(&bytes, width, height, stride), Some(true));
        }
        other => panic!("unexpected frame: {:?}", other),
    }
    assert_eq!(e.next_frame_id, 1);
    e.shutdown().unwrap();
    assert_eq!((e.width, e.height, e.stride), (0, 0, 0));
    e.resize(u32::MAX, 1).unwrap();
    assert_eq!(e.stride, u32::MAX);
    assert!(!e.drawable());
    assert_eq!(EngineError::new("m").to_text(), "m");
    assert!(EngineCapabilities::default().supported_compressed.is_empty());
    assert!(!EngineInit::default().prefer_zero_copy);
}

#[test]
fn devtools_ports_are_chosen() {
    assert_eq!(choose_devtools(Some(0), Some(9)), Some(9));
    assert_eq!(choose_devtools(Some(0), None), Some(0));
    assert_eq!(choose_devtools(Some(5), Some(9)), Some(5));
    assert_eq!(choose_devtools(None, Some(9)), Some(9));
    assert_eq!(choose_devtools(None, None), None);
    let mut e = ServoEngine::new();
    e.init(EngineInit { devtools_port: Some(7), ..EngineInit::default() }).unwrap();
    assert_eq!(e.open_devtools(None).unwrap(), Some(7));
}

#[test]
fn servo_worker_is_set_up_once_and_first() {
    let log: Arc<Mutex<Vec<String>>> = Arc::new(Mutex::new(Vec::new()));
    let l = Arc::clone(&log);
    let worker = move |c: WorkerCommand| {
        let mut log = l.lock().unwrap();
        match c {
            WorkerCommand::Init { width, height, scale_factor, .. } => {
                log.push(format!("init {width}x{height} {}", f32::from_bits(scale_factor.bits)));
                if log.len() == 1 { WorkerReply::Failed("no display".into()) } else { WorkerReply::Done }
            }
            WorkerCommand::Load { url } => {
                log.push(format!("load {url}"));
                WorkerReply::Done
            }
            WorkerCommand::Resize { width, height } => {
                log.push(format!("resize {width}x{height}"));
                WorkerReply::Done
            }
            WorkerCommand::EvalScript { source } => {
                log.push(format!("eval {source}"));
                WorkerReply::Failed("bad script".into())
            }
            WorkerCommand::DrawNow => {
                log.push("draw".into());
                WorkerReply::Frame { width: 2, height: 3, png: vec![9] }
            }
            WorkerCommand::Shutdown => {
                log.push("shutdown".into());
                WorkerReply::Done
            }
        }
    };
    let mut e = ServoWorkerEngine::new(worker);
    e.shutdown().unwrap();
    let nan = Real32 { bits: f32::NAN.to_bits() };
    let surface = SurfaceDescriptor::Fallback { width: 0, height: 5, scale_factor: nan };
    assert_eq!(e.bind_surface(&surface).unwrap_err().msg, "no display");
    e.load("HTTP://Example.com").unwrap();
    e.load("not a url").unwrap();
    e.resize(0, 9).unwrap();
    assert_eq!(e.eval_script("x").unwrap_err().msg, "bad script");
    match e.request_draw().unwrap() {
        Some(EngineFrame::CompressedImage { width, height, data, .. }) => {
            assert_eq!((width, height, data), (2, 3, vec![9]))
        }
        other => panic!("unexpected frame: {:?}", other),
    }
    e.shutdown().unwrap();
    e.bind_surface(&SurfaceDescriptor::X11 { window: 1, display: None }).unwrap();
    assert_eq!(
        *log.lock().unwrap(),
        vec![
            "init 1x5 1",
            "init 1x5 1",
            "load http://example.com/",
            "load about:blank",
            "resize 1x9",
            "eval x",
            "draw",
            "shutdown",
            "init 1x9 1",
        ]
    );
}

#[test]
fn urls_and_scales_are_made_usable() {
    assert_eq!(normalize_url("https://a.b/../c"), "https://a.b/c");
    assert_eq!(normalize_url("data:text/html,x"), "data:text/html,x");
    assert_eq!(normalize_url(""), "about:blank");
    assert_eq!(load_target(Some("u".into())), "u");
    assert_eq!(load_target(None), "about:blank");
    let scale = |x: f32| f32::from_bits(sanitize_scale(Real32 { bits: x.to_bits() }).bits);
    assert_eq!(scale(2.5), 2.5);
    assert_eq!(scale(f32::MIN_POSITIVE), f32::MIN_POSITIVE);
    assert_eq!(scale(f32::MAX), f32::MAX);
    for bad in [0.0, -0.0, -1.0, f32::INFINITY, f32::NEG_INFINITY, f32::NAN, -f32::NAN] {
        assert_eq!(scale(bad), 1.0);
    }
}

fn shade(y: u32, h: u32, c: u8) -> u8 {
    let t = (y as f32) / (h.saturating_sub(1).max(1) as f32);
    (t * c as f32) as u8
}

fn page(agent: &Option<String>, scripts: usize) -> String {
    format!("<div>{} {}</div>", agent.as_deref().unwrap_or("<unset>"), scripts)
}

#[test]
fn loaded_texts_become_pages() {
    let p = |s: &str| normalize_load_input(s, "BUILT-IN");
    assert_eq!(p("  <p>x</p>"), "  <p>x</p>");
    assert_eq!(p("data:text/html,hi"), "data:text/html,hi");
    assert_eq!(p("About:Blank"), BLANK_PAGE);
    assert!(BLANK_PAGE.contains("<meta charset=\"utf-8\">"));
    assert_eq!(p("dioxus://DEFAULT"), "BUILT-IN");
    assert_eq!(p("about:dioxus"), "BUILT-IN");
    assert_eq!(p("hello"), "<!doctype html><html><body><p>hello</p></body></html>");
    assert_eq!(p(""), "<!doctype html><html><body><p></p></body></html>");
    for s in ["hello", "about:blank", "about:dioxus", "dioxus://default", "data:text/html,x", " <b>"] {
        let page = normalize_load_input(s, "<p>built in</p>");
        assert_eq!(normalize_load_input(&page, "<p>built in</p>"), page);
    }
}

#[test]
fn pictures_have_at_least_one_pixel() {
    let e = DioxusEngine::new(|_: &Option<String>, _: usize| String::new(), |_: u32, _: u32, c: u8| c);
    let file = e.rasterize_html_to_png("<p>x</p>", 0, 0).unwrap();
    assert_eq!(image::load_from_memory(&file).unwrap().to_rgba8().dimensions(), (1, 1));
    assert_eq!(e.rasterize_html_to_png("<p>x</p>", 1, 1).unwrap(), file);
}

#[test]
fn frames_beyond_the_machine_are_not_drawn() {
    let mut server = Server::new(DemoEngine::new(), false);
    server.ask(1, Request::Resize { width: u32::MAX, height: u32::MAX });
    assert!(server.ask(2, Request::DrawNow).1.is_empty());
    assert_eq!(server.ask(3, Request::RequestDraw).1.len(), 1);
}

#[test]
fn reads_decide_what_the_server_does() {
    let message = |message: Message| Received::Message(Envelope { version: 1, id: 9, flags: 0, message });
    assert!(matches!(after_read(Received::Failed), ServerStep::Stop));
    assert!(matches!(after_read(Received::Undecodable), ServerStep::Skip));
    let answer = Message::Response(Response::Ack { in_reply_to: 1 });
    assert!(matches!(after_read(message(answer)), ServerStep::Skip));
    assert!(matches!(
        after_read(message(Message::Request(Request::DrawNow))),
        ServerStep::Serve { version: 1, id: 9, request: Request::DrawNow }
    ));
    let some = |s: &str| Some(s.to_string());
    assert_eq!(engine_name(some("demo"), some("dioxus")), some("demo"));
    assert_eq!(engine_name(None, some("dioxus")), some("dioxus"));
    assert_eq!(engine_name(None, None), None);
}

#[test]
fn workers_without_a_view_refuse() {
    let refused = |c: WorkerCommand| match worker_refusal(&c, false) {
        Some(WorkerReply::Failed(text)) => text,
        _ => String::new(),
    };
    let load = || WorkerCommand::Load { url: "u".into() };
    assert_eq!(refused(load()), "Worker.load: webview not initialized");
    assert_eq!(
        refused(WorkerCommand::Resize { width: 1, height: 1 }),
        "Worker.resize: webview not initialized"
    );
    assert_eq!(refused(WorkerCommand::DrawNow), "Worker.draw_now_png: webview not initialized");
    assert_eq!(refused(WorkerCommand::EvalScript { source: "s".into() }), "");
    assert!(worker_refusal(&load(), true).is_none());
}

#[test]
fn requests_get_one_response_and_then_events() {
    let requests = vec![
        (Request::Load { url: "u".into() }, 3),
        (Request::EvalScript { source: "s".into(), request_id: None }, 2),
        (Request::RequestDraw, 2),
        (Request::DrawNow, 2),
        (Request::Resize { width: 1, height: 1 }, 1),
        (Request::Shutdown, 1),
    ];
    for (request, messages) in requests {
        let mut server = Server::new(DemoEngine::new(), false);
        server.next_id = 5;
        let (resp, sent) = server.ask(42, request);
        assert_eq!(resp, Response::Ack { in_reply_to: 42 });
        let ids: Vec<u64> = sent.iter().map(|o| o.envelope.id).collect();
        assert_eq!(ids, (6..5 + messages).collect::<Vec<u64>>());
        assert!(sent.iter().all(|o| matches!(o.envelope.message, Message::Event(_))));
        assert_eq!(server.next_id, 5 + messages);
    }
}

#[test]
fn pictures_have_bars_over_a_shaded_background() {
    let h: u64 = 0x44332211;
    assert_eq!(hash_to_rgba(h), (0x11, 0x22, 0x33, 0xFF));
    assert_eq!(byte_of(h, 3), 0x44);
    let (w, hgt) = (9u32, 6u32);
    let rows: Vec<Shades> = (0..hgt)
        .map(|y| Shades { red: shade(y, hgt, 0x11), green: shade(y, hgt, 0x22), blue: shade(y, hgt, 0x33) })
        .collect();
    let img = paint(h, &rows, w, hgt);
    let px = |x: u32, y: u32| {
        let i = ((y * w + x) * 4) as usize;
        [img[i], img[i + 1], img[i + 2], img[i + 3]]
    };
    assert_eq!(img.len(), 9 * 6 * 4);
    assert_eq!(px(0, 0), [0, 0, 0, 0xFF]);
    assert_eq!(px(8, 5), [0x11, 0x22, 0x33, 0xFF]);
    let bar = |c: u8| [c, 255 - c, c ^ 0x5A, 0xFF];
    assert_eq!(px(0, 2), bar(0x11));
    assert_eq!(px(2, 2), bar(0x22));
    assert_eq!(px(5, 3), bar(0x33));
    assert_eq!(px(6, 3), bar(0x44));
    assert_eq!(px(8, 3), bar(0x44));
    assert_eq!(px(0, 4), [shade(4, 6, 0x11), shade(4, 6, 0x22), shade(4, 6, 0x33), 0xFF]);
    let thin = paint(h, &Vec::new(), 3, 0);
    assert!(thin.is_empty());
}

#[test]
fn dioxus_engine_draws_png_files() {
    let mut e = DioxusEngine::new(page, shade);
    let caps = e.init(EngineInit { user_agent: Some("ua".into()), ..EngineInit::default() }).unwrap();
    assert!(!caps.fd_passing && !caps.zero_copy_frames && caps.compressed_frames);
    assert_eq!(caps.supported_compressed, vec![CompressedFormat::Png]);
    e.bind_surface(&SurfaceDescriptor::Windows { hwnd: 1, hmonitor: None }).unwrap();
    assert_eq!((e.width, e.height), (800, 600));
    e.resize(8, 6).unwrap();
    let frame = e.draw_now().unwrap();
    assert_eq!(e.last_html.as_deref(), Some("<div>ua 0</div>"));
    assert_eq!(e.next_frame_id, 1);
    let data = match frame {
        Some(EngineFrame::CompressedImage { width, height, format, data }) => {
            assert_eq!((width, height, format), (8, 6, CompressedFormat::Png));
            data
        }
        other => panic!("unexpected frame: {:?}", other),
    };
    let img = image::load_from_memory(&data).unwrap().to_rgba8();
    assert_eq!((img.width(), img.height()), (8, 6));
    let hash = hash_page("<div>ua 0</div>");
    let (r, g, b, a) = hash_to_rgba(hash);
    assert_eq!(img.get_pixel(0, 5).0, [r, g, b, a]);
    assert_eq!(img.get_pixel(7, 2).0[0], byte_of(hash, 3));
    assert_ne!(hash_page("a"), hash_page("b"));
    e.load("about:dioxus").unwrap();
    assert_eq!(e.last_html.as_deref(), Some("<div>ua 0</div>"));
    e.load("text").unwrap();
    assert_eq!(
        e.last_html.as_deref(),
        Some("<!doctype html><html><body><p>text</p></body></html>")
    );
    assert!(e.request_draw().unwrap().is_some());
    e.shutdown().unwrap();
    assert_eq!((e.width, e.height, e.stride, e.last_html.is_none()), (0, 0, 0, true));
    let _ = Rest::Finished;
}
