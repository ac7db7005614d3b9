[package]
name = "auto_gpt"
version = "0.1.0"
edition = "2021"
publish = false

[dependencies]
serde = { version = "*", features = ["derive"] }
serde_json = "*"
reqwest = { version = "*", features = ["json"] }
tokio = { version = "*", features = ["full"] }
dotenv = "*"
crossterm = "*"
