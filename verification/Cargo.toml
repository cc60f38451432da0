[package]
name = "rustdesk_managed"
version = "0.1.0"
edition = "2021"
publish = false

[dependencies]
anyhow = "1"
base64 = "0.22"
chrono = "0.4"
futures-util = { version = "0.3", default-features = false, features = ["sink", "std"] }
hex = "0.4"
log = "0.4"
reqwest = { version = "0.12", default-features = false, features = ["json", "rustls-tls"] }
rusqlite = { version = "0.31", features = ["bundled"] }
serde = { version = "1", features = ["derive"] }
serde_json = "1"
sha2 = "0.10"
sodiumoxide = "0.2"
sysinfo = "0.30"
tokio = { version = "1", features = ["macros", "rt", "sync", "time"] }
tokio-tungstenite = { version = "0.23", features = ["rustls-tls-webpki-roots"] }
url = "2"
winapi = { version = "0.3", features = ["dpapi", "winbase", "wincrypt", "winuser"] }
winreg = "0.52"
