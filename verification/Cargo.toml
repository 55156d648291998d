[package]
name = "f_chat_rs"
version = "0.1.0"
edition = "2021"
publish = false

[dependencies]
async-trait = "=0.1.92"
chrono = "=0.4.45"
dashmap = "=6.2.1"
futures-util = { version = "=0.3.34", features = ["sink"] }
parking_lot = "=0.12.5"
reqwest = { version = "=0.13.5", features = ["form", "json"] }
serde = { version = "=1.0.229", features = ["derive"] }
serde_json = "=1.0.154"
thiserror = "=2.0.21"
tokio = { version = "=1.54.1", features = ["macros", "net", "rt-multi-thread", "sync", "time"] }
tokio-tungstenite = { version = "=0.30.0", features = ["native-tls"] }
