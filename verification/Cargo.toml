[package]
name = "oxidized_alpaca"
version = "0.1.0"
edition = "2021"
publish = false

[dependencies]
chrono = { version = "0.4", default-features = false, features = ["std", "serde"] }
futures = "0.3"
futures-util = "0.3"
lazy-init = "*"
reqwest = { version = "*", default-features = false, features = ["json"] }
serde = { version = "1", features = ["derive"] }
serde_json = "1"
snafu = "*"
socketeer = "*"
thiserror = "*"
tokio = { version = "1", features = ["macros", "rt-multi-thread", "sync", "time"] }
tokio-tungstenite = "*"
tracing = "0.1"
tracing-subscriber = "0.3"
url = "2"
