[package]
name = "octo_exporter"
version = "0.1.0"
edition = "2021"
publish = false

[dependencies]
carbonintensity-api = "=0.3.0"
chrono = "=0.4.45"
clap = { version = "=4.6.7", features = ["derive"] }
env_logger = "=0.11.11"
log = "=0.4.34"
octopust = "=0.4.0"
prometheus = "=0.14.0"
tokio = { version = "=1.53.2", features = ["rt-multi-thread", "macros", "time"] }
warp = { version = "=0.4.3", features = ["server"] }
