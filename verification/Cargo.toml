[package]
name = "keylime_agent"
version = "0.1.0"
edition = "2021"
publish = false

[dependencies]
actix-web = { version = "4", features = ["openssl"] }
base64 = "0.22"
clap = "4"
futures = "0.3"
hex = "0.4"
log = "0.4"
openssl = "0.10"
pretty_env_logger = "0.5"
serde = { version = "1", features = ["derive"] }
thiserror = "1"
tokio = { version = "1", features = ["rt", "sync", "signal", "macros"] }
tss-esapi = "7"
