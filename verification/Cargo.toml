[package]
name = "goose"
version = "0.10.0"
edition = "2021"
publish = false

[dependencies]
futures = "0.3"
gumdrop = "0.8"
itertools = "0.9"
lazy_static = "1.4"
log = "0.4"
num-format = "0.4"
num_cpus = "1.0"
reqwest = { version = "0.10", default-features = false, features = ["cookies", "json"] }
serde = { version = "1.0", features = ["derive"] }
serde_json = "1.0"
simplelog = "0.8"
tokio = { version = "0.2", features = ["fs", "io-util", "macros", "rt-core", "sync", "time"] }
url = "2.1"
