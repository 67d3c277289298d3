[package]
name = "physics_core"
version = "0.1.0"
edition = "2021"
publish = false

[dependencies]
wgpu = "=27.0.1"
rapier3d = "=0.26.1"
bevy_ecs = { version = "=0.15.4", default-features = false }
bevy_transform = { version = "=0.15.3", default-features = false }
bytemuck = { version = "=1.25.2", features = ["derive"] }
pollster = "=0.4.0"
raw-window-handle = "=0.6.2"
log = "=0.4.34"
once_cell = "=1.21.4"
nalgebra = "=0.33.3"
winit = "=0.30.13"
egui = "=0.33.3"
egui-wgpu = "=0.33.3"
egui-winit = { version = "=0.33.3", default-features = false, features = ["wayland", "x11"] }
flexi_logger = "=0.31.10"
tracing-core = "=0.1.36"
tracing-subscriber = "=0.3.23"
wasm-bindgen = "=0.2.129"
web-sys = { version = "=0.3.106", features = ["Document", "Element", "HtmlCanvasElement", "Node", "Performance", "Window"] }
console_error_panic_hook = "=0.1.7"
console_log = "=1.1.0"
jni = "=0.21.1"
android-activity = { version = "=0.6.1", features = ["native-activity"] }
android_logger = "=0.15.1"
ndk = "=0.9.0"
three-d = { version = "=0.19.0", default-features = false }
