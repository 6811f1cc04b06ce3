[package]
name = "lodge_rates"
version = "0.1.0"
edition = "2021"
publish = false

[dependencies]
async-std = { version = "1", features = ["attributes"] }
chrono = { version = "0.4", default-features = false, features = ["std"] }
chrono-tz = "*"
serde = { version = "1", features = ["derive"] }
serde_json = "1"
surf = { version = "2", default-features = false, features = ["h1-client", "encoding"] }
tide = "0.16"
