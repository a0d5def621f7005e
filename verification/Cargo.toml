[package]
name = "chorus"
version = "0.1.0"
edition = "2021"
publish = false

[dependencies]
email_address = "0.2"
chrono = "0.4"
serde = { version = "1", features = ["derive"] }
serde_json = "1"
serde_repr = "0.1"
reqwest = { version = "0.12", features = ["json", "multipart"] }
tokio = { version = "1", features = ["rt-multi-thread", "macros", "net", "sync", "time"] }
tokio-tungstenite = { version = "*", features = ["native-tls"] }
native-tls = "0.2"
futures-util = { version = "0.3", features = ["sink"] }
log = "0.4"
async-trait = "0.1"
http = "1"
