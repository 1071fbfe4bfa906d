[package]
name = "asya"
version = "0.1.0"
edition = "2021"
publish = false

[dependencies]
serde = { version = "1", features = ["derive"] }
serde_json = "1"
clap = { version = "4", features = ["derive"] }
tracing = "0.1"
tracing-subscriber = "0.3"
tokio = { version = "1", features = ["sync", "rt-multi-thread", "macros", "time"] }
lazy_static = "1"
homedir = "0.3"
sysinfo = "0.33"
mlua = { version = "0.10", features = ["lua54", "vendored", "serialize"] }
serde-env = "*"
derive_more = { version = "1", features = ["from", "into", "deref"] }
schemars = "0.8"
