[package]
name = "rust_modbus"
version = "0.1.0"
edition = "2021"
publish = false

[dependencies]
crc = "=3.4.0"
tokio = { version = "=1.54.1", features = ["net", "io-util", "time", "rt", "sync", "macros"] }
serde = { version = "1", features = ["derive"] }
thiserror = "2"
tokio-serial = { version = "5", default-features = false }
rustls = { version = "0.23", default-features = false, features = ["ring", "std", "tls12", "logging"] }
tokio-rustls = { version = "0.26", default-features = false, features = ["ring", "tls12", "logging"] }
rustls-native-certs = "0.8"
