[package]
name = "reacher_backend"
version = "0.1.0"
edition = "2021"
publish = false

[dependencies]
check-if-email-exists = "=0.9.1"
async-smtp = "=0.6.0"
serde = { version = "=1.0.229", features = ["derive"] }
serde_json = "=1.0.154"
log = "=0.4.34"
env_logger = "0.10"
dotenv = "0.15"
tokio = { version = "1", features = ["macros", "rt-multi-thread", "time"] }
warp = "0.3"
sqlx = { version = "0.6", default-features = false, features = ["postgres", "runtime-tokio-rustls", "json"] }
sqlxmq = { version = "0.4", default-features = false, features = ["runtime-tokio-rustls"] }
sentry = { version = "0.31", default-features = false }
