[package]
name = "trovochat"
version = "0.1.0"
edition = "2021"
publish = false

[dependencies]
native-tls = "*"
serde = { version = "*", features = ["derive"] }
serde_json = "*"
tokio = { version = "*", features = ["net", "io-util", "rt", "time"] }
tokio-native-tls = "*"
