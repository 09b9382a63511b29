[package]
name = "neuma"
version = "0.1.0"
edition = "2021"
publish = false

[dependencies]
anyhow = "=1.0.104"
arboard = { version = "=3.7.0", default-features = false }
cpal = "=0.15.3"
encoding_rs = "=0.8.44"
enigo = { version = "=0.2.1", default-features = false, features = ["x11rb"] }
llama-cpp-2 = { version = "=0.1.146", default-features = false }
log = "=0.4.35"
objc = "=0.2.7"
reqwest = { version = "=0.12.28", default-features = false, features = ["json"] }
serde = { version = "=1.0.229", features = ["derive"] }
serde_json = "=1.0.154"
tokio = { version = "=1.54.1", features = ["fs", "io-util", "rt", "time"] }
webrtc-vad = "=0.3.0"
whisper-rs = "=0.14.4"
