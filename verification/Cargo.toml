[package]
name = "websocat_nodes"
version = "0.1.0"
edition = "2021"
publish = false

[dependencies]
base64 = "0.13"
sha1 = "0.10"
rand = "0.8"
proc-macro2 = "1"
quote = "1"
syn = { version = "1", features = ["full", "extra-traits"] }
darling = "0.13"
hyper = { version = "0.14", features = ["client", "http1", "tcp"] }
tokio = { version = "1", features = ["sync", "rt", "macros"] }
futures = "0.3"
tracing = "0.1"
derivative = "2"
