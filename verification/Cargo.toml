[package]
name = "habbo_verifier"
version = "0.1.0"
edition = "2021"
publish = false

[dependencies]
rand = "0.8"
serde_json = "1"
serde = { version = "1", features = ["derive"] }
serenity = "0.12"
mongodb = "3"
bson = "2"
tokio = { version = "1", features = ["rt-multi-thread", "macros", "time"] }
reqwest = "0.12"
log = "0.4"
log4rs = "1"
