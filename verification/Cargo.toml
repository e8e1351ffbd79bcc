[package]
name = "wol"
version = "0.1.0"
edition = "2021"
publish = false

[dependencies]
libc = "=0.2.191"
tokio = { version = "=1.54.1", features = ["macros", "rt-multi-thread"] }
tracing = "=0.1.44"
tracing-subscriber = "=0.3.23"
