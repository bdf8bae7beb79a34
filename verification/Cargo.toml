[package]
name = "adm"
version = "0.1.0"
edition = "2021"
publish = false

[dependencies]
actix = "=0.10.0"
actix-web = { version = "=3.3.3", default-features = false }
askama_escape = "=0.10.3"
awc = { version = "=2.0.3", default-features = false }
color-eyre = "=0.5.11"
dashmap = "4"
dotenv = "=0.15.0"
envy = "=0.4.2"
futures = "=0.3.34"
git2 = { version = "=0.13.25", default-features = false }
hex = "=0.4.3"
hmac = "=0.10.1"
secstr = "=0.4.0"
serde = { version = "=1.0.229", features = ["derive"] }
serde_json = "=1.0.154"
sha2 = "=0.9.9"
thiserror = "=1.0.69"
tracing = "=0.1.44"
tracing-log = "=0.1.4"
tracing-subscriber = "=0.2.25"
