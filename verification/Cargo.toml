[package]
name = "uniconnect"
version = "0.1.0"
edition = "2021"
publish = false

[dependencies]
futures = "0.1"
log = "0.4"
mio = "0.6"
tokio = { version = "0.1", default-features = false, features = ["io", "reactor", "tcp"] }
tokio-serial = { version = "3.3", default-features = false }
