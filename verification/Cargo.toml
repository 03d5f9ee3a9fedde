[package]
name = "camera_mux"
version = "0.1.0"
edition = "2021"
publish = false

[dependencies]
jpeg-decoder = "=0.3.2"
openh264 = "=0.9.8"
v4l = "=0.14.0"
rocket = { version = "=0.5.1", features = ["json"] }
serde = { version = "=1.0.229", features = ["derive"] }
webrtc = "=0.12.0"
