[package]
name = "containr"
version = "0.1.0"
edition = "2021"
publish = false

[dependencies]
anyhow = "1"
clap = { version = "4", features = ["derive"] }
dirs = "5"
log = "0.4"
log4rs = "1"
nix = { version = "0.29", features = ["fs", "mount", "poll", "process", "sched", "signal", "socket", "term", "uio"] }
oci-spec = "0.6"
serde = { version = "1", features = ["derive"] }
serde_json = "1"
