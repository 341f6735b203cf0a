[package]
name = "hydrogen"
version = "0.1.0"
edition = "2021"
publish = false

[dependencies]
rand = "=0.8.8"
base64 = "=0.21.7"
serde = { version = "=1.0.229", features = ["derive"] }
serde_json = "=1.0.154"
clap = { version = "=4.6.7", features = ["derive"] }
toml = "=0.8.23"
tracing = "=0.1.44"
tracing-subscriber = { version = "=0.3.23", features = ["env-filter"] }
tokio = { version = "=1.54.1", features = ["macros", "rt-multi-thread", "time", "sync"] }
serenity = "=0.12.5"
reqwest = { version = "=0.12.28", features = ["json"] }
tokio-tungstenite = "=0.21.0"
futures = "=0.3.34"
async-trait = "=0.1.92"
songbird = { version = "0.4", default-features = false, features = ["gateway", "serenity"] }

[dev-dependencies]
regex = "1"
