[package]
name = "coin_crab"
version = "0.1.0"
edition = "2021"
publish = false

[dependencies]
actix-web = { version = "4", default-features = false, features = ["macros"] }
chrono = "0.4"
dotenv = "0.15"
env_logger = "*"
libc = "0.2"
log = "0.4"
reqwest = { version = "0.12", default-features = false, features = ["json"] }
rumqttc = { version = "*", default-features = false }
rumqttd = { version = "*", default-features = false }
serde = { version = "1", features = ["derive"] }
serde_json = "1"
tokio = { version = "1", features = ["rt-multi-thread", "macros", "time", "sync"] }
toml = "*"
