[package]
name = "brush_render"
version = "0.1.0"
edition = "2021"
publish = false

[dependencies]
burn = { version = "0.17", default-features = false, features = ["std"] }
clap = { version = "4", features = ["derive"] }
serde = { version = "1", features = ["derive"] }
