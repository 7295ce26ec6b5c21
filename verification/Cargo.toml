[package]
name = "sql_connect"
version = "0.1.0"
edition = "2021"
publish = false

[dependencies]
backoff = "*"
chrono = { version = "0.4", default-features = false, features = ["std"] }
futures = "0.3"
futures-timer = "3"
libsqlite3-sys = "*"
mown = "*"
pin-utils = "0.1"
