[package]
name = "rithmic_api"
version = "0.1.0"
edition = "2021"
publish = false

[dependencies]
dashmap = "*"
futures-util = "*"
prost = "*"
rkyv = { version = "0.7", features = ["validation"] }
serde = { version = "*", features = ["derive"] }
strum_macros = "*"
tokio = { version = "*", features = ["full"] }
tokio-tungstenite = "*"
toml = "*"
tungstenite = "*"
