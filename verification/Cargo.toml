[package]
name = "tranzistorak"
version = "0.1.0"
edition = "2021"
publish = false

[dependencies]
amplify_derive = "*"
anyhow = "1"
circular-queue = "=0.2.7"
deunicode = "=1.6.2"
dotenv = "*"
ftail = "*"
iana-time-zone = "*"
log = "0.4"
rand = "=0.9.5"
reqwest = "0.12"
rspotify = "*"
serenity = { version = "0.12", default-features = false, features = ["builder", "cache", "client", "gateway", "http", "model", "utils", "rustls_backend", "voice"] }
songbird = { version = "0.5", features = ["receive"] }
thiserror = "*"
tokio = { version = "1", features = ["macros", "rt-multi-thread", "fs", "sync", "time"] }
unwrap_or_log = "*"
