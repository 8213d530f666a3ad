[package]
name = "shaco"
version = "0.7.0"
edition = "2021"
publish = false

[dependencies]
base64 = "=0.22.1"
futures-util = { version = "=0.3.34", default-features = false, features = ["sink", "std"] }
reqwest = { version = "=0.12.28", default-features = false, features = ["json", "rustls-tls"] }
rustls = { version = "=0.23.46", default-features = false, features = ["ring", "std"] }
rustls-pemfile = "=2.2.0"
serde = { version = "=1.0.229", features = ["derive"] }
serde_json = "=1.0.154"
sysinfo = "=0.30.13"
tokio = { version = "=1.54.1", features = ["macros", "net", "rt", "sync", "time"] }
tokio-tungstenite = { version = "=0.24.0", features = ["rustls-tls-webpki-roots"] }

[dev-dependencies]
http = "=1.5.0"
