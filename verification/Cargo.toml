[package]
name = "fcm"
version = "0.1.0"
edition = "2021"
publish = false

[dependencies]
chrono = "=0.4.45"
dotenvy = "=0.15.7"
gauth = "=0.11.0"
reqwest = { version = "=0.13.5", default-features = false }
serde_json = "=1.0.151"
tokio = { version = "=1.53.2", features = ["fs", "macros", "rt-multi-thread", "sync"] }
yup-oauth2 = "=12.1.2"
