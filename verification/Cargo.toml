[package]
name = "umem"
version = "0.1.0"
edition = "2021"
publish = false

[dependencies]
anyhow = "*"
axum = "*"
directories = "=6.0.0"
dirs = "*"
dotenv = "*"
jsonwebtoken = { version = "=11.1.0", features = ["rust_crypto"] }
lopdf = "*"
mdka = "*"
memmap2 = "*"
pandoc = "*"
reqwest = { version = "*", default-features = false, features = ["json", "rustls-tls"] }
serde = { version = "*", features = ["derive"] }
serde_json = "=1.0.151"
tokio = { version = "*", features = ["full"] }
tower-http = { version = "*", features = ["cors", "trace"] }
tracing = "*"
tracing-appender = "*"
tracing-subscriber = { version = "*", features = ["env-filter"] }
uuid = { version = "*", features = ["v4"] }
