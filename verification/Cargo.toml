[package]
name = "scaffolder"
version = "0.1.0"
edition = "2021"
publish = false

[dependencies]
tera = "1"
clap = { version = "4", features = ["derive"] }
dirs = "5"
git2 = "0.18"
inquire = "0.7"
reqwest = { version = "0.11", features = ["json"] }
serde = { version = "1", features = ["derive"] }
serde_json = "1"
tokio = { version = "1", features = ["rt-multi-thread", "macros"] }
walkdir = "2"

[dev-dependencies]
regex = "1"
