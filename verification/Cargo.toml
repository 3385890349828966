[package]
name = "melcloud"
version = "0.1.0"
edition = "2021"
publish = false

[dependencies]
anyhow = "1"
chrono = "0.4"
chrono-tz = "*"
dotenv = "0.15"
http = "*"
influxdb = { version = "*", features = ["derive"] }
log = "0.4"
reqwest = { version = "*", features = ["json"] }
serde = { version = "1", features = ["derive"] }
serde_json = "1"
tokio = { version = "1", features = ["full"] }
tokio-postgres = { version = "*", features = ["with-chrono-0_4"] }
