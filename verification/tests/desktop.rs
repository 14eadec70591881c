use std::sync::{Arc, Mutex};

use serde_json::Value;
use verso_standalone::controller::{ControllerConfig, ControllerMode};
use verso_standalone::tray_and_notify::{
    build_menu_recursive, notify_error, ApiError, MenuItem, MenuSpec, NativeItem, Notification,
    Service, Tray,
};
use verso_standalone::window_manager::{
    Backend, Hook, NoHook, VersoWindowBuilder, WindowBuilder, WindowError, WindowIds, WindowOptions,
};
use verso_standalone::window_manager_glue::{
    controller_config_with_base, to_controller_config_from_options,
};

#[test]
fn menu_spec_roundtrip_default() {
    let spec = MenuSpec {
        items: vec![
            MenuItem {
                id: "open".into(),
                title: "Open".into(),
                enabled: true,
                ..Default::default()
            },
            MenuItem { id: "sep1".into(), separator: true, ..Default::default() },
            MenuItem {
                id: "quit".into(),
                title: "Quit".into(),
                enabled: true,
                ..Default::default()
            },
        ],
    };
    assert_eq!(spec.items.len(), 3);
}

#[test]
fn tray_stub_lifecycle() {
    let mut tray = Tray::new(None).expect("create tray");
    tray.set_menu(MenuSpec::default()).expect("set menu");
    let tray = tray.on_click(Box::new(|_id: &str| {})).expect("on_click");
    tray.close().expect("close");
}

#[test]
fn notification_builder_compiles() {
    let _ = Notification::new("Title", "Body").show(&mut NoHook);
    let _ = Notification::show_simple("A", "B", None, &mut NoHook);
}

#[test]
fn notification_keeps_what_it_is_given() {
    let n = Notification::new("T", "B").icon_path("/i.png").on_action(|_a: &str| {});
    assert_eq!((n.title.as_str(), n.body.as_str()), ("T", "B"));
    assert_eq!(n.icon_path.as_deref(), Some("/i.png"));
    assert_eq!(n.show(&mut NoHook), Ok(()));
    assert_eq!(Notification::show_simple("A", "B", Some("/x".to_string()), &mut NoHook), Ok(()));
    assert_eq!(notify_error("gone").to_text(), "backend error: notify-rust error: gone");
    assert_eq!(ApiError::Unsupported("tray").to_text(), "unsupported: tray");
}

#[test]
fn notification_reaches_its_service() {
    let seen: Mutex<Vec<(String, String, Option<String>)>> = Mutex::new(Vec::new());
    let mut service = Service::new(|title: &str, body: &str, icon: &Option<String>| {
        seen.lock().unwrap().push((title.to_string(), body.to_string(), icon.clone()));
        if body.is_empty() { Err("no body".to_string()) } else { Ok(()) }
    });
    assert_eq!(Notification::new("T", "B").icon_path("/i.png").show(&mut service), Ok(()));
    assert_eq!(Notification::show_simple("A", "B", None, &mut service), Ok(()));
    assert_eq!(Notification::show_simple("A", "C", Some("/x".to_string()), &mut service), Ok(()));
    assert_eq!(
        Notification::show_simple("A", "", None, &mut service),
        Err(ApiError::Backend("notify-rust error: no body".to_string()))
    );
    assert_eq!(
        *seen.lock().unwrap(),
        vec![
            ("T".to_string(), "B".to_string(), Some("/i.png".to_string())),
            ("A".to_string(), "B".to_string(), None),
            ("A".to_string(), "C".to_string(), Some("/x".to_string())),
            ("A".to_string(), String::new(), None),
        ]
    );
}

fn entry(id: &str, title: &str, enabled: bool) -> MenuItem {
    MenuItem { id: id.into(), title: title.into(), enabled, ..Default::default() }
}

#[test]
fn menus_are_planned_recursively() {
    let items = vec![
        entry("open", "Open", true),
        MenuItem {
            id: "ignored".into(),
            separator: true,
            submenu: Some(vec![entry("never", "Never", true)]),
            ..Default::default()
        },
        MenuItem {
            id: "more".into(),
            title: "More".into(),
            enabled: false,
            submenu: Some(vec![
                entry("a", "A", false),
                MenuItem {
                    title: "Deep".into(),
                    submenu: Some(vec![entry("b", "B", true)]),
                    ..Default::default()
                },
            ]),
            ..Default::default()
        },
    ];
    let e = |id: &str, title: &str, enabled: bool| NativeItem::Entry {
        title: title.into(),
        enabled,
        id: id.into(),
    };
    assert_eq!(items.clone(), items);
    assert_eq!(
        build_menu_recursive(&items),
        vec![
            e("open", "Open", true),
            NativeItem::Separator,
            NativeItem::Submenu {
                title: "More".into(),
                enabled: false,
                items: vec![
                    e("a", "A", false),
                    NativeItem::Submenu {
                        title: "Deep".into(),
                        enabled: true,
                        items: vec![e("b", "B", true)],
                    },
                ],
            },
        ]
    );
}

#[test]
fn clicks_find_their_way_back() {
    let seen: Arc<Mutex<Vec<String>>> = Arc::new(Mutex::new(Vec::new()));
    let s = Arc::clone(&seen);
    let mut tray = Tray::new(Some("/icon.png".to_string())).unwrap();
    assert!(tray.native_menu().is_empty());
    tray.set_menu(MenuSpec { items: vec![entry("quit", "Quit", true)] }).unwrap();
    assert_eq!(tray.native_menu().len(), 1);
    let mut tray = tray.on_click(move |id: &str| s.lock().unwrap().push(id.to_string())).unwrap();
    tray.add_routes(&vec![("native-1".to_string(), "quit".to_string())]);
    assert!(tray.native_click("native-1"));
    seen.lock().unwrap().clear();
    tray.add_route("native-1", "quit");
    assert!(tray.native_click("native-1"));
    assert!(!tray.native_click("native-2"));
    tray.simulate_click("open");
    assert_eq!(*seen.lock().unwrap(), vec!["quit", "open"]);
    tray.set_menu(MenuSpec::default()).unwrap();
    assert!(!tray.native_click("native-1"));
    assert_eq!(tray.icon_path.as_deref(), Some("/icon.png"));
}

#[test]
fn map_to_controller_config_sets_expected_fields() {
    let opts = WindowBuilder::new()
        .title("Test")
        .size(800, 600)
        .initialization_script("console.log('a');")
        .initialization_script("console.log('b');")
        .devtools_port(Some(0))
        .build(&mut WindowIds::new())
        .options()
        .clone();

    let cfg = to_controller_config_from_options(&opts);
    assert_eq!(cfg.devtools_port, Some(0));
    assert_eq!(cfg.init_scripts.len(), 2);
}

#[test]
fn merge_over_base_preserves_and_overrides_correctly() {
    let opts = WindowBuilder::new()
        .initialization_script("s1")
        .initialization_script("s2")
        .devtools_port(Some(9222))
        .build(&mut WindowIds::new())
        .options()
        .clone();

    let mut base = ControllerConfig::default();
    base.devtools_port = Some(0);
    base.init_scripts = vec!["base".into()];

    let merged = controller_config_with_base(base, &opts);
    assert_eq!(merged.devtools_port, Some(9222));
    assert_eq!(merged.init_scripts, vec!["base", "s1", "s2"]);
}

#[test]
fn merging_without_port_or_scripts_changes_nothing() {
    let base = ControllerConfig {
        mode: ControllerMode::OutOfProcess,
        external_bin_path: Some("/bin/versoview".into()),
        resources_dir: Some("/res".into()),
        devtools_port: Some(7),
        user_agent: Some("ua".into()),
        init_scripts: vec!["x".into()],
        unix_socket_path: Some("/s".into()),
    };
    let merged = controller_config_with_base(base.clone(), &WindowOptions::default());
    assert_eq!(merged, base);
    let mapped = to_controller_config_from_options(&WindowOptions::default());
    assert_eq!(mapped, ControllerConfig::default());
    assert_eq!(ControllerMode::default(), ControllerMode::InProcess);
}

#[test]
fn builder_calls_for_different_options_commute() {
    let one = WindowBuilder::new().title("T").size(3, 4).resizable(false).title("U");
    let other = WindowBuilder::new().resizable(false).title("T").title("U").size(3, 4);
    let options = other.into_options();
    assert_eq!(*one.build(&mut WindowIds::new()).options(), options);
    assert_eq!((options.title.as_str(), options.decorations), ("U", true));
}

#[test]
fn later_title_hook_replaces_the_earlier_one() {
    let log: Arc<Mutex<Vec<&'static str>>> = Arc::new(Mutex::new(Vec::new()));
    let (a, b) = (Arc::clone(&log), Arc::clone(&log));
    let mut win = VersoWindowBuilder::new()
        .on_title_changed(move |_: &str| a.lock().unwrap().push("earlier"))
        .on_title_changed(move |_: &str| b.lock().unwrap().push("later"))
        .build(&mut WindowIds::new());
    win.set_title("T");
    assert_eq!(*log.lock().unwrap(), vec!["later"]);
}

#[test]
fn builder_sets_one_thing_at_a_time() {
    let o = VersoWindowBuilder::new().into_options();
    assert_eq!(o, WindowOptions::default());
    assert_eq!(o.title, "Verso App");
    assert!(o.decorations && o.resizable && !o.always_on_top);
    let o = VersoWindowBuilder::new()
        .title("X")
        .size(1, 2)
        .min_size(3, 4)
        .max_size(5, 6)
        .decorations(false)
        .resizable(false)
        .always_on_top(true)
        .initialization_script("gone")
        .initialization_scripts(vec!["a".to_string(), "b".to_string()])
        .devtools_port(None)
        .into_options();
    assert_eq!(o.title, "X");
    assert_eq!(o.size.map(|s| (s.width, s.height)), Some((1, 2)));
    assert_eq!(o.min_size.map(|s| (s.width, s.height)), Some((3, 4)));
    assert_eq!(o.max_size.map(|s| (s.width, s.height)), Some((5, 6)));
    assert!(!o.decorations && !o.resizable && o.always_on_top);
    assert_eq!(o.initialization_scripts, vec!["a", "b"]);
}

#[test]
fn windows_are_numbered_apart_with_and_without_backend() {
    let mut ids = WindowIds::new();
    let a = VersoWindowBuilder::new().build(&mut ids);
    let b = VersoWindowBuilder::new().build(&mut ids);
    let c = VersoWindowBuilder::new().build_with_backend(Backend::null(), &mut ids);
    assert_eq!((a.id(), b.id(), c.id()), (1, 2, 1));
    assert!(!a.is_visible() && !a.is_closed());
}

#[test]
fn window_tells_hooks_and_backend() {
    let log: Arc<Mutex<Vec<String>>> = Arc::new(Mutex::new(Vec::new()));
    let say = |what: &'static str| {
        let log = Arc::clone(&log);
        move || log.lock().unwrap().push(what.to_string())
    };
    let l = Arc::clone(&log);
    let eval = move |src: &str| {
        l.lock().unwrap().push(format!("eval {src}"));
        if src == "bad" { Err("syntax".to_string()) } else { Ok(()) }
    };
    let l = Arc::clone(&log);
    let send = move |name: &str, p: &Value| {
        l.lock().unwrap().push(format!("event {name} {p}"));
        if name == "bad" { Err("refused".to_string()) } else { Ok(()) }
    };
    let backend = Backend {
        show: Hook(say("show")),
        hide: Hook(say("hide")),
        close: Hook(say("close")),
        eval_script: Hook(eval),
        send_ipc_event: Hook(send),
    };
    let l = Arc::clone(&log);
    let l2 = Arc::clone(&log);
    let mut win = VersoWindowBuilder::new()
        .on_title_changed(move |t: &str| l.lock().unwrap().push(format!("title {t}")))
        .on_new_window(move |o: &WindowOptions| l2.lock().unwrap().push(format!("new {}", o.title)))
        .on_focus(say("focus"))
        .on_close(say("closed"))
        .build_with_backend(backend, &mut WindowIds::new());
    assert_eq!(win.show(), Ok(()));
    assert!(win.is_visible());
    win.set_title("T");
    assert_eq!(win.options().title, "T");
    assert_eq!(win.hide_window(), Ok(()));
    assert!(!win.is_visible());
    assert_eq!(win.eval_script("ok"), Ok(()));
    assert_eq!(win.eval_script("bad"), Err(WindowError::Failed("syntax".to_string())));
    assert_eq!(win.send_ipc_event("e", &Value::from(1)), Ok(()));
    assert_eq!(
        win.send_ipc_event("bad", &Value::Null),
        Err(WindowError::Failed("refused".to_string()))
    );
    win.notify_focused();
    win.notify_new_window(&WindowOptions::default());
    assert_eq!(win.close(), Ok(()));
    assert_eq!(win.close(), Ok(()));
    assert!(win.is_closed());
    assert_eq!(win.show(), Err(WindowError::Closed));
    assert_eq!(win.hide_window(), Err(WindowError::Closed));
    assert_eq!(win.eval_script("ok"), Err(WindowError::Closed));
    assert_eq!(win.send_ipc_event("e", &Value::Null), Err(WindowError::Closed));
    assert_eq!(
        *log.lock().unwrap(),
        vec![
            "show", "title T", "hide", "eval ok", "eval bad", "event e 1", "event bad null", "focus",
            "new Verso App", "close", "closed"
        ]
    );
    assert_eq!(WindowError::Closed.to_text(), "window is closed");
    assert_eq!(WindowError::Failed("x".into()).to_text(), "failed: x");
    assert_eq!(WindowError::Unsupported("y").to_text(), "unsupported: y");
    let mut quiet = VersoWindowBuilder::new().build(&mut WindowIds::new());
    assert_eq!(quiet.eval_script("x"), Ok(()));
    assert_eq!(quiet.send_ipc_event("x", &Value::Null), Ok(()));
    assert_eq!(quiet.show(), Ok(()));
    let _ = NoHook;
}
