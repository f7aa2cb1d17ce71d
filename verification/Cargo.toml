[package]
name = "bedtime"
version = "0.1.0"
edition = "2021"
publish = false

[dependencies]
dotenv = "0.15"
tokio = { version = "1", features = ["macros", "rt-multi-thread", "net"] }
tokio-postgres = "0.7"
