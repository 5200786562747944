[package]
name = "evalsa_worker"
version = "0.1.0"
edition = "2021"
publish = false

[dependencies]
libc = "0.2"
nix = { version = "0.27", features = ["fs", "mount", "process", "resource", "sched", "signal"] }
tempfile = "3"
serde = { version = "1", features = ["derive"] }
toml = "0.8"
ciborium = "0.2"
amiquip = { version = "0.4", default-features = false }
