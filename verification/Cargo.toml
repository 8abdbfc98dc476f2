[package]
name = "glorious_mouse_control"
version = "0.1.0"
edition = "2021"
publish = false

[dependencies]
rusb = { version = "*", features = ["vendored"] }
clap = { version = "*", features = ["derive"] }
serde = { version = "*", features = ["derive"] }
serde_json = "*"
xdg = "*"
