[package]
name = "fenster"
version = "0.1.0"
edition = "2021"
publish = false

[dependencies]
anyhow = "1"
async-fs = "2"
async-global-executor = "2"
async-io = "2"
async-lock = "3"
dirs = "6"
futures-util = { version = "0.3", features = ["io"] }
parking_lot = "0.12"
serde = { version = "1", features = ["derive"] }
serde_json = "1"
tracing = "0.1"
tracing-subscriber = { version = "0.3", features = ["env-filter", "fmt"] }
wayland-client = "0.31"
wayland-protocols-wlr = { version = "0.3", features = ["client"] }
