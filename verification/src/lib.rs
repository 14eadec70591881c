//! Verified core of a standalone web view runtime: the wire protocol and its framing, the
//! controllers that drive a web view, the render server, the command adapters and the tooling
//! that finds and stages the engine binary.
pub mod calls;
pub mod controller;
pub mod dioxus_engine;
pub mod engine;
pub mod in_process_controller;
pub mod ipc_controller;
pub mod ipc_protocol;
pub mod ipc_transport;
pub mod json;
pub mod laws;
pub mod named_table;
pub mod png;
pub mod server;
pub mod servo_engine;
pub mod servo_locator;
pub mod servo_prep;
pub mod session;
pub mod settings;
pub mod tauri_compat_ipc;
pub mod tauri_ipc_adapter;
pub mod text;
pub mod transport_unix;
pub mod tray_and_notify;
pub mod window_manager;
pub mod window_manager_glue;
pub mod winit_runtime;
