[package]
name = "lora_launcher"
version = "0.1.0"
edition = "2021"
publish = false

[dependencies]
base64 = "=0.22.1"
chrono = "=0.4.45"
dirs = "=5.0.1"
image = { version = "=0.24.9", default-features = false, features = ["png", "ico"] }
lnk = "=0.5.1"
reqwest = { version = "=0.12.28", default-features = false, features = ["blocking", "rustls-tls"] }
serde = { version = "=1.0.229", features = ["derive"] }
serde_json = "=1.0.154"
tokio = { version = "=1.54.1", features = ["rt", "time"] }
url = "=2.5.8"
winapi = { version = "=0.3.9", features = ["shellapi", "windef", "wingdi", "winuser"] }
