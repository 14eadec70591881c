use std::sync::atomic::{AtomicUsize, Ordering};
use std::sync::{Arc, Mutex};

use serde_json::Value;
use verso_standalone::tauri_compat_ipc;
use verso_standalone::tauri_ipc_adapter::{
    call_each, reply_to, script, AdapterError, ChannelAdapter, CommandRegistry, CommandResult, EventBus,
    EventMessage, InvokeRequest,
};

type Handler = Box<dyn Fn(Value) -> CommandResult>;
type Listener = Box<dyn Fn(&Value)>;
type Emit = Box<dyn Fn(&EventMessage)>;

type CompatRegistry = tauri_compat_ipc::CommandRegistry<Handler, Handler>;
type CompatAdapter = tauri_compat_ipc::ChannelAdapter<Listener, Emit>;

fn object(fields: &[(&str, Value)]) -> Value {
    let mut m = serde_json::Map::new();
    for (k, v) in fields {
        m.insert(k.to_string(), v.clone());
    }
    Value::Object(m)
}

#[test]
fn registry_sync_invoke_roundtrip() {
    let mut reg = CompatRegistry::new();
    reg.register(
        "echo",
        Box::new(|payload: Value| Ok(payload.get("msg").cloned().unwrap_or_default())),
    );

    let adapter = CompatAdapter::new();
    let req = InvokeRequest {
        command: "echo".to_string(),
        payload: object(&[("msg", Value::from("hi"))]),
        id: 42,
    };
    let resp = adapter.invoke(&reg, req);
    assert_eq!(resp.in_reply_to, 42);
    assert!(resp.err.is_none());
    assert_eq!(resp.ok, Some(Value::from("hi")));
}

#[test]
fn registry_unknown_command() {
    let reg = CompatRegistry::new();
    let adapter = CompatAdapter::new();
    let req = InvokeRequest { command: "nope".to_string(), payload: Value::Null, id: 1 };
    let resp = adapter.invoke(&reg, req);
    assert!(resp.ok.is_none());
    assert!(resp.err.unwrap().contains("unknown command"));
}

#[test]
fn event_bus_subscribe_emit_unsubscribe() {
    let mut adapter = CompatAdapter::new();
    let hits = Arc::new(AtomicUsize::new(0));
    let hits_cloned = Arc::clone(&hits);
    let id = adapter.subscribe(
        "tick",
        Box::new(move |v: &Value| {
            if v == &Value::from(1) {
                // count only payload = 1
                hits_cloned.fetch_add(1, Ordering::SeqCst);
            }
        }),
    );
    adapter.emit_event("tick", &Value::from(1));
    adapter.emit_event("tick", &Value::from(2));
    assert_eq!(hits.load(Ordering::SeqCst), 1);
    assert!(adapter.unsubscribe(id));
    adapter.emit_event("tick", &Value::from(1));
    assert_eq!(hits.load(Ordering::SeqCst), 1);
}

#[test]
fn async_invoke_prefers_sync_when_both_exist() {
    let mut reg = CompatRegistry::new();
    reg.register(
        "echo_mode",
        Box::new(|payload: Value| {
            let mode = payload.get("mode").and_then(|v| v.as_str()).unwrap_or("none").to_string();
            Ok(Value::from(format!("sync:{mode}")))
        }),
    );
    reg.register_async(
        "echo_mode",
        Box::new(|payload: Value| {
            let mode = payload.get("mode").and_then(|v| v.as_str()).unwrap_or("none").to_string();
            Ok(Value::from(format!("async:{mode}")))
        }),
    );
    let adapter = CompatAdapter::new();
    let req = InvokeRequest {
        command: "echo_mode".to_string(),
        payload: object(&[("mode", Value::from("fast"))]),
        id: 7,
    };
    match adapter.invoke_async(&reg, req) {
        tauri_compat_ipc::Pending::Ready(resp) => {
            assert_eq!(resp.in_reply_to, 7);
            assert!(resp.err.is_none());
            assert_eq!(resp.ok, Some(Value::from("sync:fast")));
        }
        tauri_compat_ipc::Pending::Waiting { .. } => panic!("the handler that answers at once is preferred"),
    }
}

fn run_deferred(reg: &CompatRegistry, req: InvokeRequest) -> tauri_compat_ipc::InvokeResponse {
    match CompatAdapter::new().invoke_async(reg, req) {
        tauri_compat_ipc::Pending::Ready(resp) => resp,
        tauri_compat_ipc::Pending::Waiting { id, handler, payload } => reply_to(id, handler(payload)),
    }
}

#[test]
fn async_invoke_roundtrip_delayed_sum() {
    let mut reg = CompatRegistry::new();
    reg.register_async(
        "delayed_sum",
        Box::new(|payload: Value| {
            let a = payload.get("a").and_then(|v| v.as_i64()).unwrap_or(0);
            let b = payload.get("b").and_then(|v| v.as_i64()).unwrap_or(0);
            Ok(Value::from(a + b))
        }),
    );
    let req = InvokeRequest {
        command: "delayed_sum".to_string(),
        payload: object(&[("a", Value::from(2)), ("b", Value::from(40))]),
        id: 100,
    };
    let resp = run_deferred(&reg, req);
    assert_eq!(resp.in_reply_to, 100);
    assert!(resp.err.is_none(), "unexpected error: {:?}", resp.err);
    assert_eq!(resp.ok, Some(Value::from(42)));
}

#[test]
fn async_invoke_propagates_handler_error() {
    let mut reg = CompatRegistry::new();
    reg.register_async(
        "fail_after_delay",
        Box::new(|_payload: Value| Err(AdapterError::Handler("boom: test error".to_string()))),
    );
    let req =
        InvokeRequest { command: "fail_after_delay".to_string(), payload: Value::Null, id: 999 };
    let resp = run_deferred(&reg, req);
    assert_eq!(resp.in_reply_to, 999);
    assert!(resp.ok.is_none());
    let err = resp.err.unwrap_or_default();
    assert!(err.contains("boom: test error"), "missing error message: {err}");
}

#[test]
fn compat_registry_tables_are_separate() {
    let mut reg = CompatRegistry::new();
    assert!(!reg.contains("a"));
    assert!(reg.register_async("a", Box::new(|p: Value| Ok(p))).is_none());
    assert!(reg.contains("a"));
    assert!(reg.register_async("a", Box::new(|p: Value| Ok(p))).is_some());
    assert!(!reg.unregister("a"));
    assert!(reg.unregister_async("a"));
    assert!(!reg.unregister_async("a"));
    assert!(!reg.contains("a"));
    let meta = tauri_compat_ipc::CommandMeta { capabilities: vec!["fs".to_string()] };
    assert!(reg.register_with_meta("b", Box::new(|p: Value| Ok(p)), meta).is_none());
    let entry = reg.sync_commands.get("b").unwrap();
    assert_eq!(entry.1.capabilities, vec!["fs".to_string()]);
    assert!(tauri_compat_ipc::CommandMeta::default().capabilities.is_empty());
    let req = InvokeRequest { command: "zzz".to_string(), payload: Value::Null, id: 3 };
    match CompatAdapter::new().invoke_async(&reg, req) {
        tauri_compat_ipc::Pending::Ready(r) => {
            assert_eq!(r.err, Some("unknown command: zzz".to_string()))
        }
        tauri_compat_ipc::Pending::Waiting { .. } => panic!("no such command"),
    }
}

#[test]
fn registering_replaces_and_returns_the_previous_handler() {
    let mut reg: CommandRegistry<Handler> = CommandRegistry::new();
    assert!(reg.register("x", Box::new(|_| Ok(Value::from(1)))).is_none());
    let prev = reg.register("x", Box::new(|_| Ok(Value::from(2)))).expect("a handler was replaced");
    assert_eq!(prev(Value::Null), Ok(Value::from(1)));
    assert_eq!(reg.invoke("x", Value::Null), Ok(Value::from(2)));
    assert!(reg.register("y", Box::new(|p| Ok(p))).is_none());
    assert_eq!(reg.invoke("x", Value::Null), Ok(Value::from(2)));
    assert!(reg.unregister("x"));
    assert!(!reg.contains("x"));
    assert!(reg.contains("y"));
    assert_eq!(
        reg.invoke("x", Value::Null),
        Err(AdapterError::UnknownCommand("x".to_string()))
    );
    assert!(!reg.unregister("x"));
}

#[test]
fn error_texts_of_the_adapter() {
    let cases = [
        (AdapterError::UnknownCommand("c".into()), "unknown command: c", "unknown command: c"),
        (AdapterError::Handler("h".into()), "handler error: h", "h"),
        (AdapterError::Serialization("s".into()), "serialization error: s", "serialization error: s"),
        (AdapterError::Other("o".into()), "adapter error: o", "o"),
    ];
    for (e, text, reply) in cases {
        assert_eq!(e.to_text(), text);
        assert_eq!(e.err_to_string(), reply);
    }
}

#[test]
fn listeners_are_called_in_subscription_order() {
    let mut bus: EventBus<Box<dyn Fn(&Value)>> = EventBus::new();
    let seen: Arc<Mutex<Vec<String>>> = Arc::new(Mutex::new(Vec::new()));
    let mut ids = Vec::new();
    for (name, tag) in [("a", "1"), ("b", "2"), ("a", "3"), ("a", "4")] {
        let seen = Arc::clone(&seen);
        ids.push(bus.subscribe(
            name,
            Box::new(move |v: &Value| seen.lock().unwrap().push(format!("{tag}:{v}"))),
        ));
    }
    assert_eq!(ids, vec![1, 2, 3, 4]);
    bus.emit("a", &Value::from(9));
    assert_eq!(*seen.lock().unwrap(), vec!["1:9", "3:9", "4:9"]);
    assert!(bus.unsubscribe(3));
    assert!(!bus.unsubscribe(3));
    assert!(!bus.unsubscribe(77));
    seen.lock().unwrap().clear();
    bus.emit("a", &Value::from(5));
    bus.emit("none", &Value::from(5));
    bus.emit("b", &Value::from(6));
    assert_eq!(*seen.lock().unwrap(), vec!["1:5", "4:5", "2:6"]);
}

#[test]
fn exhausted_ids_repeat_and_leave_by_event() {
    let mut bus: EventBus<u8> = EventBus::new();
    bus.next_id = u64::MAX;
    assert_eq!(bus.subscribe("a", 1), u64::MAX);
    assert_eq!(bus.subscribe("b", 2), u64::MAX);
    assert_eq!(bus.subscribe("a", 3), u64::MAX);
    assert!(bus.unsubscribe(u64::MAX));
    let left: Vec<u8> = bus.subscriptions.iter().map(|s| s.listener).collect();
    assert_eq!(left, vec![2]);
}

#[test]
fn hook_sees_every_event_after_the_listeners() {
    let seen: Arc<Mutex<Vec<String>>> = Arc::new(Mutex::new(Vec::new()));
    let mut adapter: ChannelAdapter<Listener, Emit> = ChannelAdapter::new();
    let s = Arc::clone(&seen);
    adapter.subscribe("n", Box::new(move |_: &Value| s.lock().unwrap().push("listener".into())));
    let s = Arc::clone(&seen);
    adapter.set_on_emit(Some(Box::new(move |m: &EventMessage| {
        assert!(m.tag.is_none());
        s.lock().unwrap().push(format!("hook {} {}", m.name, m.payload.as_ref().unwrap()));
    })));
    adapter.emit_event("n", &Value::from("p"));
    adapter.set_on_emit(None);
    adapter.emit_event("n", &Value::from("q"));
    assert_eq!(*seen.lock().unwrap(), vec!["listener", "hook n \"p\"", "listener"]);
}

#[test]
fn channel_invoke_replies_under_the_request_id() {
    let mut reg: CommandRegistry<Handler> = CommandRegistry::new();
    reg.register("bad", Box::new(|_| Err(AdapterError::Serialization("x".into()))));
    let adapter: ChannelAdapter<Listener, Emit> = ChannelAdapter::new();
    let resp = adapter
        .invoke(&reg, InvokeRequest { command: "bad".into(), payload: Value::Null, id: u64::MAX });
    assert_eq!(resp.in_reply_to, u64::MAX);
    assert_eq!(resp.ok, None);
    assert_eq!(resp.err, Some("serialization error: x".to_string()));
}

#[test]
fn shim_defines_the_entry_point_once() {
    assert!(script().starts_with("(() => {\nif (typeof window !== 'undefined') {"));
    assert!(script().contains("if (!window.__verso.invoke) {"));
    assert!(script().ends_with("})();"));
    assert_eq!(script(), tauri_compat_ipc::script());
}

#[test]
fn listeners_may_change_the_bus() {
    type Shared = Arc<Mutex<EventBus<Arc<Listener>>>>;
    let bus: Shared = Arc::new(Mutex::new(EventBus::new()));
    let seen: Arc<Mutex<Vec<&'static str>>> = Arc::new(Mutex::new(Vec::new()));
    let note = |tag: &'static str| {
        let seen = Arc::clone(&seen);
        let listener: Listener = Box::new(move |_: &Value| seen.lock().unwrap().push(tag));
        Arc::new(listener)
    };
    let emit = |bus: &Shared| {
        let callbacks = bus.lock().unwrap().callbacks("a");
        call_each(&callbacks, &Value::Null);
    };
    let (inner, once, new) = (Arc::clone(&bus), Mutex::new(true), note("new"));
    let first = note("first");
    let changing: Listener = Box::new(move |v: &Value| {
        (*first)(v);
        if std::mem::take(&mut *once.lock().unwrap()) {
            let mut bus = inner.lock().unwrap();
            bus.subscribe("a", Arc::clone(&new));
            assert!(bus.unsubscribe(2));
        }
    });
    bus.lock().unwrap().subscribe("a", Arc::new(changing));
    bus.lock().unwrap().subscribe("a", note("second"));
    bus.lock().unwrap().subscribe("b", note("other"));
    emit(&bus);
    assert_eq!(*seen.lock().unwrap(), vec!["first", "second"]);
    seen.lock().unwrap().clear();
    emit(&bus);
    assert_eq!(*seen.lock().unwrap(), vec!["first", "new"]);
}
