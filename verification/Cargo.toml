[package]
name = "lockin"
version = "0.1.0"
edition = "2021"
publish = false

[dependencies]
chrono = "0.4"
aes-gcm = "0.10"
sha2 = "0.10"
rand = "0.8"
hex = "0.4"
serde = { version = "1", features = ["derive"] }
serde_json = "1"
thiserror = "1"
log = "0.4"
tracing = "0.1"
tracing-subscriber = "0.3"
tokio = { version = "1", features = ["macros", "rt-multi-thread", "time"] }
