[package]
name = "rong_core"
version = "0.1.0"
edition = "2021"
publish = false

[dependencies]
tokio = { version = "=1.54.1", features = ["rt", "rt-multi-thread", "sync", "macros", "time", "fs", "io-util"] }
futures = "=0.3.34"
thiserror = "=2.0.21"
tracing = "=0.1.44"
bytes = "=1.12.1"
http = "1"
http-body-util = "0.1"
hyper-util = { version = "0.1", features = ["client-legacy", "http1", "tokio"] }
hyper-rustls = { version = "0.27", default-features = false, features = ["http1", "webpki-roots", "aws-lc-rs", "tls12"] }
rustls = { version = "0.23", default-features = false, features = ["aws_lc_rs", "std", "tls12"] }
