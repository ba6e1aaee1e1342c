[package]
name = "manja"
version = "0.1.0"
edition = "2021"
publish = false

[dependencies]
sha2 = "0.10"
hex = "0.4"
tokio = { version = "1", features = ["net", "time"] }
tokio-tungstenite = "0.24"
tungstenite = "0.24"
stubborn-io = "0.3"
futures-util = "0.3"
secrecy = "0.8"
totp-rs = "5"
base32 = "0.5"

[dev-dependencies]
serde_json = "1"
