[package]
name = "frb_plugin_tool"
version = "0.1.0"
edition = "2021"
publish = false

[dependencies]
tera = { version = "=2.4.0", default-features = false, features = ["preserve_order"] }
reqwest = { version = "=0.13.5", default-features = false }
tokio = { version = "=1.53.2", features = ["rt", "rt-multi-thread", "macros", "fs", "io-util"] }
duct = "=1.1.2"
futures = "=0.3.34"
tracing = "=0.1.44"
tracing-subscriber = "=0.3.23"
