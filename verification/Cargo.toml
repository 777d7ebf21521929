[package]
name = "basketball_betting_bot"
version = "0.1.0"
edition = "2021"
publish = false

[dependencies]
chrono = "=0.4.45"
thiserror = "=1.0.69"
serde = { version = "=1.0.229", features = ["derive"] }
derive_more = "=0.99.20"
log = "=0.4.35"
lazy_static = "=1.5.1"
rust-ini = "=0.21.3"
tokio = { version = "=1.54.1", features = ["rt-multi-thread", "macros"] }
teloxide = { version = "=0.13.0", default-features = false, features = ["rustls", "ctrlc_handler"] }
takecell = "=0.1.1"
sqlx = { version = "=0.8.6", default-features = false, features = ["runtime-tokio", "tls-rustls", "postgres", "chrono"] }
reqwest = { version = "=0.12.28", default-features = false, features = ["rustls-tls"] }
