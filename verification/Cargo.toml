[package]
name = "sequencer"
version = "0.1.0"
edition = "2021"
publish = false

[dependencies]
num = "0.4"
rand = "0.8"
markov = { version = "1.1", default-features = false }
anyhow = "1"
log = "0.4"
env_logger = { version = "0.11", default-features = false }
tokio = { version = "1", features = ["rt-multi-thread", "macros", "sync", "time", "signal"] }
midir = "0.10"
device_query = "4"
