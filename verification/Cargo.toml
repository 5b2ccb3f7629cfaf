[package]
name = "fz_bot"
version = "0.1.0"
edition = "2021"
publish = false

[dependencies]
bytes = "1"
dptree = "0.3"
env_logger = "0.10"
futures-util = "0.3"
log = "0.4"
regex = "=1.13.1"
reqwest = { version = "0.11", default-features = false, features = ["json", "rustls-tls"] }
rustls = { version = "0.21", features = ["dangerous_configuration"] }
serde = { version = "1", features = ["derive"] }
serde_json = "=1.0.154"
takecell = "=0.1.1"
teloxide = { version = "=0.13.0", default-features = false, features = ["rustls", "ctrlc_handler"] }
tokio = { version = "1", features = ["macros", "net", "rt-multi-thread", "sync", "time"] }
tokio-rustls = "0.24"
tokio-tungstenite = "0.20"
