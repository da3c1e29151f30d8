[package]
name = "mirrorx_core"
version = "0.1.0"
edition = "2021"
publish = false

[dependencies]
rsa = "=0.6.1"
ring = "=0.16.20"
rand = "=0.8.8"
tokio = { version = "=1.54.1", features = ["sync", "time", "rt", "rt-multi-thread", "macros"] }
dashmap = "=5.5.3"
once_cell = "=1.21.4"
anyhow = "=1.0.104"
log = "=0.4.35"
tracing = "=0.1.44"
tracing-subscriber = "=0.3.23"
crossbeam = "=0.8.5"
scopeguard = "=1.2.0"
tonic = "=0.8.3"
flutter_rust_bridge = "=1.82.6"
windows = { version = "=0.39.0", features = ["Win32_Foundation", "Win32_Graphics_Direct3D", "Win32_Graphics_Direct3D11", "Win32_Graphics_Dxgi", "Win32_Graphics_Dxgi_Common"] }
