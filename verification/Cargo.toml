[package]
name = "warp-sessions"
version = "0.1.0"
edition = "2021"
publish = false

[dependencies]
async-session = "3.0"
warp = { version = "0.3", default-features = false }

[dev-dependencies]
tokio = { version = "1", features = ["rt"] }
