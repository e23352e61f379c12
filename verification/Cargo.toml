[package]
name = "trans2quik"
version = "0.1.0"
edition = "2021"
publish = false

[dependencies]
chrono = { version = "0.4", default-features = false, features = ["std"] }
encoding_rs = "0.8"
libc = "0.2"
libloading = "0.8"
tokio = { version = "1", default-features = false, features = ["sync"] }
tracing = "0.1"
