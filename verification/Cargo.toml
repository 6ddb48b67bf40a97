[package]
name = "wingbird"
version = "0.1.0"
edition = "2021"
publish = false

[dependencies]
anyhow = "1"
axum = "0.8"
blake3 = "1"
clap = { version = "4", features = ["derive"] }
colored = "2"
futures-util = "0.3"
keyring = { version = "3", features = ["linux-native"] }
qbsdiff = "1"
reqwest = { version = "0.12", default-features = false, features = ["json", "stream", "rustls-tls"] }
serde = { version = "1", features = ["derive"] }
serde_json = "1"
tokio = { version = "1", features = ["full"] }
tower-http = { version = "0.6", features = ["cors"] }
urlencoding = "2"
webbrowser = "1"
yaml_serde = "*"
zip = { version = "2", default-features = false, features = ["deflate"] }
