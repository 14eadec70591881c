[package]
name = "verso_standalone"
version = "0.1.0"
edition = "2021"
publish = false

[dependencies]
anyhow = "=1.0.104"
bincode = { version = "=2.0.1", features = ["serde"] }
bytes = "=1.12.1"
clap = { version = "=4.6.7", features = ["derive", "env"] }
dioxus = { version = "=0.6.3", default-features = false, features = ["macro", "html", "hooks", "signals"] }
dioxus-ssr = { version = "=0.6.2", default-features = false }
hex = "=0.4.3"
image = { version = "=0.25.10", default-features = false, features = ["png"] }
memmap2 = "=0.9.12"
nix = { version = "=0.29.0", features = ["fs", "mman", "socket", "uio"] }
notify-rust = "=4.18.2"
raw-window-handle = "=0.6.2"
serde = { version = "=1.0.229", features = ["derive"] }
serde_json = "=1.0.154"
sha2 = "=0.10.9"
tempfile = "=3.27.0"
thiserror = "=1.0.69"
time = { version = "=0.3.55", features = ["formatting"] }
tokio = { version = "=1.54.1", features = ["full"] }
toml = "=0.8.23"
tracing = "=0.1.44"
tracing-subscriber = { version = "=0.3.23", features = ["env-filter"] }
tray-icon = { version = "=0.26.1", default-features = false, features = ["ksni"] }
url = "=2.5.8"
walkdir = "=2.5.0"
which = "=6.0.3"
winit = { version = "=0.30.13", default-features = false, features = ["x11", "rwh_06"] }
zip = { version = "=2.6.1", default-features = false, features = ["deflate"] }
