[package]
name = "niri_zones"
version = "0.1.0"
edition = "2021"
publish = false

[dependencies]
regex = "1"
serde = { version = "1", features = ["derive"] }
toml = "*"
clap = { version = "4", features = ["derive"] }
niri-ipc = "*"
smithay-client-toolkit = "*"
wayland-client = "*"
