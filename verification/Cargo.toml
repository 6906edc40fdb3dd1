[package]
name = "airwire"
version = "0.1.0"
edition = "2021"
publish = false

[dependencies]
byteorder = "1"
clap = { version = "4", features = ["derive", "env"] }
cpal = "0.15"
opus = "0.3"
thread-priority = "1"
