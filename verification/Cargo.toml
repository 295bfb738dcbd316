[package]
name = "wiretap"
version = "0.1.0"
edition = "2021"
publish = false

[dependencies]
anyhow = "1"
aya = { version = "0.13", features = ["async_tokio"] }
bytes = "1"
rusoto_core = { version = "0.48", default-features = false, features = ["rustls"] }
rusoto_s3 = { version = "0.48", default-features = false, features = ["rustls"] }
structopt = "0.3"
tokio = { version = "1", features = ["macros", "rt-multi-thread", "signal", "sync", "time"] }
