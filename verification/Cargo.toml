[package]
name = "sqlbridge"
version = "0.1.0"
edition = "2021"
publish = false

[dependencies]
hex = "*"
tiberius = "*"
tokio = { version = "*", features = ["net", "rt-multi-thread", "macros"] }
tokio-util = { version = "*", features = ["compat"] }
futures-util = "*"
serde = { version = "*", features = ["derive"] }
serde_json = "*"
