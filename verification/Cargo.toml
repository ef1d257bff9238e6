[package]
name = "account_security"
version = "0.1.0"
edition = "2021"
publish = false

[dependencies]
chrono = "0.4"
data-encoding = "2"
rand = "0.9"
serde_json = "1"
