[package]
name = "shelby"
version = "0.1.0"
edition = "2021"
publish = false

[dependencies]
base64 = "0.22"
chrono = "0.4"
getrandom = "0.2"
ring = "0.17"
rocket = { version = "0.5", features = ["json", "secrets"] }
rocket_dyn_templates = { version = "*", features = ["tera"] }
rusqlite = { version = "*", features = ["bundled", "blob", "chrono"] }
rusqlite_migration = "*"
serde = { version = "1", features = ["derive"] }
serde_json = "1"
