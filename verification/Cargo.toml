[package]
name = "rust_to_bokeh"
version = "0.1.0"
edition = "2021"
publish = false

[dependencies]
serde_json = { version = "=1.0.154", features = ["preserve_order"] }
uuid = { version = "=1.29.0", features = ["v4"] }
polars = { version = "=0.55.2", default-features = false, features = ["ipc"] }
