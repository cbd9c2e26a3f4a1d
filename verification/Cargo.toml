[package]
name = "guest_init"
version = "0.1.0"
edition = "2021"
publish = false

[dependencies]
base64 = "0.22"
env_logger = "0.11"
futures = "0.3"
log = "0.4"
nix = { version = "0.27", features = ["fs", "hostname", "mount", "process", "signal"] }
rlimit = "0.10"
rtnetlink = "0.14"
serde = { version = "1", features = ["derive"] }
serde_json = "1"
tokio = { version = "1", features = ["full"] }
tokio-vsock = "0.5"
warp = "0.3"
