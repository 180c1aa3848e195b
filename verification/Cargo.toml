[package]
name = "stream_report"
version = "0.1.0"
edition = "2021"
publish = false

[dependencies]
serde_json = "*"
tokio = { version = "*", features = ["rt", "macros"] }
twitch_api2 = "*"
twitch_oauth2 = "*"
