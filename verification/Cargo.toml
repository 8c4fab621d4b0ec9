[package]
name = "spell_wallet"
version = "0.1.0"
edition = "2021"
publish = false

[dependencies]
bitcoin = "0.32"
bitcoincore-rpc = "0.19"
serde = { version = "1", features = ["derive"] }
serde_json = "1"
axum = "0.8"
tokio = { version = "1", features = ["rt-multi-thread", "macros", "net"] }
tower-http = { version = "0.6", features = ["cors"] }
http = "1"
reqwest = { version = "0.12", default-features = false, features = ["json"] }
thiserror = "2"
tracing = "0.1"
tracing-subscriber = "0.3"
dotenv = "0.15"

[dev-dependencies]
hex = "0.4"
ciborium = "0.2"
