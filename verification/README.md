# verso_standalone

The verified core of a standalone web view runtime, written in Verus.

A host application drives a web view through a controller. The engine behind it runs in the same
process or in a render server process that is reached over framed pipes or a local socket. Around
this core stand the description of windows, command and event adapters for web content, tray menus,
and the tools that build, stage, find and package the engine binary.

## Layout

- `src/` is the library. Every public function has a contract, and every law about several functions
  is a public proof function beside them.
  - `ipc_protocol`, `ipc_transport`, `transport_unix`: messages and their framing.
  - `server`, `engine`, `servo_engine`, `dioxus_engine`, `png`: how requests are answered, the engines,
    and their pictures.
  - `controller`, `in_process_controller`, `ipc_controller`: the controllers.
  - `session`: what holds between controller and server.
  - `winit_runtime`, `window_manager`, `window_manager_glue`, `settings`: windows and settings.
  - `tauri_ipc_adapter`, `tauri_compat_ipc`, `named_table`, `json`: commands and events.
  - `servo_locator`, `servo_prep`: finding, building, staging and packaging the engine.
  - `tray_and_notify`: tray menus and notifications.
  - `text`: texts as sequences of characters. `calls`: the log of calls of an application's functions.
- `tests/` runs the library on concrete values.
- `app/` is the render server and the preparation tool: processes, files, sockets, windows and
  floating point.

## Conventions

Types that own text or bytes have a view in which text is a sequence of characters and bytes are a
sequence of `u8`. Fractional numbers are carried by their bit patterns. What the library asks of
`bytes`, `serde_json`, `sha2`, `hex`, `url` and `image` is stated where it is asked, in declarations
that say which function they speak of.
