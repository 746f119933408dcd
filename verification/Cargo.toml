[package]
name = "zos_query"
version = "0.1.0"
edition = "2021"
publish = false

[dependencies]
serde_json = "1"
lru = "0.12"
chrono = "0.4"
serde = { version = "1", features = ["derive"] }
toml = "0.8"
reqwest = { version = "0.12", default-features = false, features = ["json"] }
tokio = { version = "1", features = ["rt-multi-thread", "macros", "time"] }
