[package]
name = "flux_capacitor"
version = "0.1.0"
edition = "2021"
publish = false

[dependencies]
serde_json = "*"
chrono = "*"
mongodb = "*"
tokio = { version = "*", features = ["macros", "rt-multi-thread", "sync"] }
dotenv = "*"
