[package]
name = "chickens"
version = "0.1.0"
edition = "2021"
publish = false

[dependencies]
anyhow = "=1.0.104"
clap = { version = "=4.6.7", features = ["derive"] }
hex = "=0.4.3"
indicatif = "=0.17.11"
itertools = "=0.13.0"
phantom-zone = { version = "=0.1.0", features = ["non_interactive_mp"] }
rand = "=0.8.8"
rayon = "=1.12.0"
reqwest = { version = "=0.12.28", default-features = false, features = ["json", "stream", "rustls-tls"] }
rocket = { version = "=0.5.2", features = ["json", "msgpack"] }
rustyline = "=14.0.0"
serde = { version = "=1.0.229", features = ["derive"] }
tabled = "=0.15.0"
thiserror = "=1.0.69"
tokio = { version = "=1.54.1", features = ["full"] }
tokio-util = { version = "=0.7.20", features = ["io"] }
