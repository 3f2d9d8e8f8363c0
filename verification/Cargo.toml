[package]
name = "notify_handshake"
version = "0.1.0"
edition = "2021"
publish = false

[dependencies]
anyhow = "1"
libc = "0.2"
rustix = "=0.38.44"
tokio = { version = "1", features = ["macros", "net", "rt", "time"] }
tracing = "0.1"
zbus = { version = "=4.4.0", default-features = false, features = ["p2p", "tokio"] }
