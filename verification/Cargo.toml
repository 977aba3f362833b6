[package]
name = "r_jellycli"
version = "0.1.0"
edition = "2021"
publish = false

[dependencies]
uuid = { version = "1", features = ["v4"] }
dirs = "5"
hostname = "0.3"
url = "2"
tokio = { version = "1", features = ["full"] }
serde = { version = "1", features = ["derive"] }
serde_json = "1"
reqwest = { version = "0.11", default-features = false, features = ["json", "stream", "rustls-tls"] }
clap = { version = "4", features = ["derive", "env"] }
symphonia = "0.5"
rubato = "0.14"
alsa = "0.9"
libc = "0.2"
tokio-tungstenite = "0.20"
futures = "0.3"
futures-util = "0.3"
bytes = "1"
tracing = "0.1"
tracing-subscriber = { version = "0.3", features = ["env-filter"] }
crossterm = "0.27"
async-trait = "0.1"
