[package]
name = "wreq-proto"
version = "0.2.0"
edition = "2021"
publish = false

[dependencies]
bytes = "=1.12.1"
futures-util = { version = "=0.3.34", default-features = false, features = ["std"] }
http = "=1.5.0"
http-body = "=1.1.0"
http-body-util = "=0.1.5"
pin-project-lite = "=0.2.17"
tokio = { version = "=1.54.1", features = ["sync"] }
tokio-util = "=0.7.20"
