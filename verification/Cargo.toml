[package]
name = "macxlr"
version = "0.1.0"
edition = "2021"
publish = false

[dependencies]
fancy-regex = "=0.20.0"
enum-map = "=3.1.0"
anyhow = "=1.0.104"
log = "=0.4.35"
strum = { version = "=0.28.0", features = ["derive"] }
serde = { version = "=1.0.229", features = ["derive"] }
tokio = { version = "=1.54.1", features = ["rt-multi-thread", "macros", "time", "signal", "sync"] }
coreaudio-sys = "*"
tauri = { version = "*", default-features = false }
