[package]
name = "rust_requester"
version = "0.1.0"
edition = "2021"
publish = false

[dependencies]
oauth2 = { version = "4", default-features = false }
reqwest = { version = "0.11", default-features = false, features = ["rustls-tls"] }
tokio = { version = "1", features = ["rt", "sync", "time"] }
rusqlite = { version = "0.31", features = ["bundled"] }
serde = { version = "1", features = ["derive"] }
serde_json = "1"
postcard = { version = "1", features = ["use-std"] }
