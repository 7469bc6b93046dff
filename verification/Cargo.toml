[package]
name = "sqlite-vfs"
version = "0.2.0"
edition = "2021"
publish = false

[dependencies]
libc = "0.2"
log = "0.4"
pretty_env_logger = "0.5"
rand = "0.8"
rusqlite = "*"
time = "0.3"
tokio = { version = "1", features = ["net", "rt", "io-util", "time"] }
