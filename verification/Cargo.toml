[package]
name = "game_of_estimates"
version = "0.1.0"
edition = "2021"
publish = false

[dependencies]
base64 = "=0.22.1"
uuid = { version = "=1.29.0", features = ["v7"] }
rand = "=0.8.8"
sha1 = "0.10"
hex = "0.4"
mime_guess = "2"
serde = { version = "=1.0.229", features = ["derive"] }
serde_json = "=1.0.154"
tokio = { version = "=1.54.1", features = ["macros", "rt-multi-thread", "sync", "time", "net"] }
axum = { version = "=0.8.9", features = ["ws"] }
async-trait = "=0.1.92"
log = "=0.4.34"
env_logger = "=0.11.11"
anyhow = "=1.0.104"
futures-util = "=0.3.34"
http = "=1.5.0"
time = "=0.3.55"
dotenvy = "=0.15.7"
sqlx = { version = "=0.8.6", default-features = false, features = ["postgres", "runtime-tokio", "json", "time", "uuid", "migrate"] }
