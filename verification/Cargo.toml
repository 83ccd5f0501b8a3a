[package]
name = "neko_ai"
version = "0.1.0"
edition = "2021"
publish = false

[dependencies]
anyhow = "*"
async-openai = { version = "=0.42.1", features = ["chat-completion"] }
async-trait = "*"
chrono = "=0.4.45"
dotenvy = "*"
owo-colors = "*"
poise = "=0.7.0"
serde = { version = "=1.0.229", features = ["derive"] }
serde_json = "=1.0.151"
serenity = "=0.12.5"
thiserror = "*"
tokio = { version = "=1.53.2", features = ["full"] }
tracing = "*"
tracing-subscriber = { version = "*", features = ["env-filter", "fmt"] }
