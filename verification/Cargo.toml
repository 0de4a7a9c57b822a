[package]
name = "dtls_transport"
version = "0.1.0"
edition = "2021"
publish = false

[dependencies]
anyhow = "1"
bytes = "1"
rtcp = "0.4"
tokio = { version = "1", features = ["sync"] }
webrtc-dtls = "0.4"
webrtc-srtp = "0.5"
webrtc-util = "0.4"
