[package]
name = "ferrium"
version = "0.1.0"
edition = "2021"
publish = false

[dependencies]
byteorder = "1.5"
base64 = "0.22"
rustls-pemfile = "2"
dirs = "6.0"
openraft = { version = "0.9", features = ["serde"] }
rocksdb = "0.23"
actix-web = { version = "4", features = ["rustls-0_23"] }
actix-cors = "0.7"
reqwest = { version = "0.12", default-features = false, features = ["json", "rustls-tls"] }
tokio = { version = "1", features = ["full"] }
tonic = { version = "0.13", features = ["tls-ring"] }
clap = { version = "4", features = ["derive"] }
serde = { version = "1", features = ["derive"] }
serde_json = "1"
serde_with = "3"
toml = "0.9"
tracing = "0.1"
tracing-subscriber = { version = "0.3", features = ["env-filter", "json", "chrono"] }
rustls = "0.23"
rustls-native-certs = "0.8"
thiserror = "2.0"
anyhow = "1"

[dev-dependencies]
tempfile = "3"
