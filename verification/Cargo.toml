[package]
name = "jira_cli"
version = "0.1.0"
edition = "2021"
publish = false

[dependencies]
serde_json = "*"
chrono = "*"
clap = { version = "*", features = ["derive"] }
dotenv = "*"
reqwest = { version = "*", default-features = false, features = ["blocking"] }
