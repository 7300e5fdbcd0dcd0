[package]
name = "dicom_download_cli"
version = "0.1.0"
edition = "2021"
publish = false

[dependencies]
anyhow = "=1.0.104"
base64 = "=0.23.1"
chrono = { version = "=0.4.45", features = ["serde"] }
clap = { version = "=4.6.7", features = ["derive"] }
colored = "=3.1.1"
csv = "=1.4.0"
dicom-object = "=0.10.0"
futures = "=0.3.34"
indicatif = "=0.18.6"
reqwest = { version = "=0.12.28", default-features = false, features = ["json", "multipart", "rustls-tls"] }
serde = { version = "=1.0.229", features = ["derive"] }
serde_json = "=1.0.151"
tokio = { version = "=1.53.2", features = ["macros", "rt-multi-thread", "fs", "io-util", "time", "process"] }
toml = "=1.1.6"

[dev-dependencies]
dicom-core = "=0.10.0"
