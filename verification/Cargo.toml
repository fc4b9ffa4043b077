[package]
name = "nvprime"
version = "0.1.0"
edition = "2021"
publish = false

[dependencies]
anyhow = "1"
bincode = "2"
bytes = "1"
chrono = "0.4"
dirs = "*"
env_logger = "*"
libc = "0.2"
log = "0.4"
nix = { version = "*", features = ["user"] }
nvml-wrapper = "*"
serde = { version = "1", features = ["derive"] }
serde_json = "1"
tokio = { version = "1", features = ["rt-multi-thread", "macros", "signal", "time"] }
toml = "*"
zbus = { version = "5", default-features = false, features = ["tokio"] }
