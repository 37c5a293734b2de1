[package]
name = "masonry-testing"
version = "0.1.0"
edition = "2021"
publish = false

[dependencies]
cursor-icon = "1.1"
dpi = "0.1"
futures-intrusive = "0.5"
image = { version = "0.25", default-features = false, features = ["png"] }
pollster = "0.4"
tracing = { version = "0.1", default-features = false }
vello = "0.4"
wgpu = "23"
winit = { version = "0.30", default-features = false, features = ["x11", "rwh_06"] }
