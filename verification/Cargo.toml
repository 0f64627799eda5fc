[package]
name = "tls_probe"
version = "0.1.0"
edition = "2021"
publish = false

[dependencies]
reqwest = { version = "*", features = ["native-tls"] }
tokio = { version = "*", features = ["rt-multi-thread", "macros", "time"] }
