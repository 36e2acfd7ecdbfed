[package]
name = "skywrite"
version = "0.1.0"
edition = "2021"
publish = false

[dependencies]
anyhow = "*"
bsky-sdk = "*"
chrono = { version = "*", default-features = false, features = ["clock", "std"] }
clap = { version = "*", features = ["derive", "env"] }
dirs = "*"
dotenvy = "*"
feed-rs = "*"
futures = "*"
log = "*"
reqwest = { version = "*", default-features = false, features = ["rustls-tls"] }
scraper = "*"
sqlx = { version = "*", default-features = false, features = ["runtime-tokio", "sqlite"] }
tokio = { version = "*", features = ["macros", "rt-multi-thread", "time"] }
tracing-subscriber = { version = "*", features = ["env-filter"] }
url = "*"
