[package]
name = "preroll_test_utils"
version = "0.1.0"
edition = "2021"
publish = false

[dependencies]
async-std = "1"
cfg-if = "1"
dotenv = "0.15"
env_logger = "*"
log = "0.4"
serde = { version = "1", features = ["derive"] }
serde_json = "1"
sqlx = { version = "*", default-features = false, features = ["postgres", "runtime-async-std"] }
surf = { version = "2", default-features = false }
tide = { version = "0.16", default-features = false }
tracing = "0.1"
tracing-subscriber = "0.3"
