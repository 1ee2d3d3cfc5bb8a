[package]
name = "rathole_panel"
version = "0.1.0"
edition = "2021"
publish = false

[dependencies]
chrono = "=0.4.45"
zip = { version = "=2.4.2", default-features = false, features = ["deflate"] }
reqwest = { version = "=0.12.28", default-features = false, features = ["blocking", "rustls-tls"] }
serde_json = "1"
toml = "*"
sysinfo = "*"
