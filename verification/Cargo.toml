[package]
name = "displex"
version = "0.1.0"
edition = "2021"
publish = false

[dependencies]
humantime = "2"
serenity = { version = "0.12", default-features = false }
reqwest = { version = "0.12", default-features = false, features = ["json"] }
serde = { version = "1", features = ["derive"] }
serde_json = "1"
chrono = "0.4"
anyhow = "1"
thiserror = "1"
figment = { version = "0.10", features = ["json", "toml", "yaml", "env"] }
clap = { version = "4", features = ["derive"] }
tokio = { version = "1", features = ["macros", "rt-multi-thread", "signal"] }
tracing = "0.1"
dotenvy = "0.15"
