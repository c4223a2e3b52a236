[package]
name = "agriculture_drone"
version = "0.1.0"
edition = "2021"
publish = false

[dependencies]
rand = "0.8"
serde = { version = "1", features = ["derive"] }
serde_json = "1"
once_cell = "1"
scheduled-thread-pool = "0.2"
