[package]
name = "video_engine"
version = "0.1.0"
edition = "2021"
publish = false

[dependencies]
glib = "0.20"
gstreamer = "0.23"
gstreamer-app = "0.23"
iced = { version = "0.14", default-features = false, features = ["advanced", "wgpu"] }
iced_wgpu = "0.14"
log = "0.4"
url = "2"
