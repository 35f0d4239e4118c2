[package]
name = "ricci_cli"
version = "0.1.0"
edition = "2021"
publish = false

[dependencies]
anyhow = "=1.0.104"
async-openai = { version = "=0.42.2", features = ["chat-completion"] }
chrono = { version = "=0.4.45", features = ["serde"] }
clap = { version = "=4.6.7", features = ["derive"] }
clap_complete = "=4.6.11"
colored = "=2.2.0"
dialoguer = "=0.12.0"
dirs = "=5.0.1"
dotenv = "=0.15.0"
encoding_rs = "=0.8.42"
figlet-rs = "=1.0.0"
futures = "=0.3.34"
prettytable-rs = "=0.10.0"
rustyline = "=19.0.0"
serde = { version = "=1.0.229", features = ["derive"] }
serde_json = "=1.0.154"
serde_yaml = "=0.9.34"
similar = "=2.7.0"
syntect = { version = "=5.3.0", default-features = false, features = ["default-fancy"] }
termimad = "=0.35.5"
tokio = { version = "=1.54.1", features = ["full"] }
toml = "=0.8.23"
walkdir = "=2.5.0"
