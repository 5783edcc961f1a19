[package]
name = "demo_scraper"
version = "0.1.0"
edition = "2021"
publish = false

[dependencies]
base64 = "0.22"
csv = "1"
reqwest = { version = "0.12", default-features = false, features = ["blocking", "rustls-tls"] }
scraper = "*"
serde = { version = "1", features = ["derive"] }
serde_json = "1"
thirtyfour = "*"
tokio = { version = "1", features = ["macros", "rt-multi-thread", "time"] }
