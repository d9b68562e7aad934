[package]
name = "bloombot"
version = "0.1.0"
edition = "2021"
publish = false

[dependencies]
anyhow = "1"
chrono = { version = "0.4", default-features = false, features = ["std", "clock"] }
dotenvy = "0.15"
futures = "0.3"
log = "0.4"
pretty_env_logger = "0.5"
sqlx = { version = "0.8", default-features = false, features = ["runtime-tokio", "postgres", "chrono", "migrate"] }
tokio = { version = "1", features = ["macros", "rt-multi-thread", "time", "signal"] }
