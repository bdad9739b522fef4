[package]
name = "zenoh_plugin_mavlink"
version = "0.1.0"
edition = "2021"
publish = false

[dependencies]
chrono = "=0.4.45"
tokio = { version = "=1.53.2", features = ["full"] }
zenoh = { version = "=1.10.1", default-features = false, features = ["unstable", "internal", "plugins"] }
zenoh-config = "=1.10.1"
zenoh-plugin-trait = "=1.10.1"
clap = { version = "=4.6.7", features = ["derive"] }
serde = { version = "=1.0.229", features = ["derive"] }
serde_json = "=1.0.151"
tracing = "=0.1.44"
futures = "=0.3.34"
lazy_static = "=1.5.1"
async-liveliness-monitor = "*"
