[package]
name = "updater"
version = "0.1.0"
edition = "2021"
publish = false

[dependencies]
log = "0.4"
log4rs = { version = "1", default-features = false, features = ["file_appender", "pattern_encoder"] }
reqwest = { version = "0.12", features = ["blocking"] }
serde_json = "1"
tempfile = "3"
zip = { version = "2", default-features = false, features = ["deflate"] }
