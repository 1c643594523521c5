[package]
name = "pgparrot"
version = "0.1.0"
edition = "2021"
publish = false

[dependencies]
url = "=2.5.8"
serde_json = "=1.0.151"
toml = "=1.1.7"
tokio = { version = "=1.53.2", features = ["rt-multi-thread", "macros"] }
tokio-postgres = "=0.7.18"
native-tls = "=0.2.18"
postgres-native-tls = "=0.5.3"
async-openai = { version = "=0.42.1", features = ["chat-completion"] }
