[package]
name = "cowork_bridge"
version = "0.1.0"
edition = "2021"
publish = false

[dependencies]
serde = { version = "1", features = ["derive"] }
serde_json = { version = "1", features = ["preserve_order"] }
keyring = "2"
uuid = { version = "1", features = ["v4"] }
chrono = "0.4"
rusqlite = "*"
reqwest = { version = "*", default-features = false, features = ["json"] }
