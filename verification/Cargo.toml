[package]
name = "isonet"
version = "0.1.0"
edition = "2021"
publish = false

[dependencies]
rand = "*"
bytes = "*"
clap = { version = "*", features = ["derive"] }
env_logger = "*"
futures = "*"
http-body-util = "*"
hyper = { version = "*", features = ["http1", "server"] }
hyper-util = { version = "*", features = ["tokio"] }
log = "*"
nix = { version = "*", features = ["sched", "signal", "hostname", "process", "user"] }
rtnetlink = "*"
serde = { version = "*", features = ["derive"] }
serde_json = "*"
tokio = { version = "*", features = ["full"] }
