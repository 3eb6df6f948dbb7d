[package]
name = "puregym_qr"
version = "0.1.0"
edition = "2021"
rust-version = "1.95"
publish = false

[dependencies]
anyhow = "1"
clap = { version = "4", features = ["derive"] }
dptree = "=0.3.0"
image = { version = "=0.24.9", default-features = false, features = ["png"] }
lambda_http = "=0.8.4"
log = "0.4"
pretty_env_logger = "0.5"
qrcode = "=0.13.0"
reqwest = { version = "=0.11.27", default-features = false, features = ["blocking", "json", "rustls-tls"] }
serde = { version = "1", features = ["derive"] }
serde_json = "=1.0.154"
serde_urlencoded = "=0.7.1"
takecell = "=0.1.1"
teloxide = { version = "=0.12.2", default-features = false, features = ["ctrlc_handler", "macros", "rustls", "webhooks-axum"] }
thiserror = "1"
tokio = { version = "1", features = ["macros", "rt-multi-thread"] }

[dev-dependencies]
rqrr = { version = "=0.11.0", default-features = false }
