[package]
name = "window_post_snark_server"
version = "0.1.0"
edition = "2021"
publish = false

[dependencies]
clap = "2"
dirs = "4"
fil_logger = "0.1"
log = "0.4"
serde_json = "1"
signal-hook = "0.3"
tokio = { version = "1", features = ["rt-multi-thread", "sync", "time", "net", "io-util", "macros"] }
