[package]
name = "blinkion"
version = "0.1.0"
edition = "2021"
publish = false

[dependencies]
tokio = { version = "1", features = ["sync", "time"] }
once_cell = "1"
dioxus = { version = "0.6", default-features = false, features = ["macro", "html", "signals", "hooks", "launch", "document", "asset"] }
dioxus-motion = { version = "0.3", default-features = false }
image = { version = "0.25", default-features = false, features = ["png"] }
