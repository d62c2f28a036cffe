[package]
name = "hygg"
version = "0.1.0"
edition = "2021"
publish = false

[dependencies]
uuid = { version = "1", features = ["v4", "serde"] }
anyhow = "1"
arboard = { version = "3", default-features = false }
chrono = { version = "0.4", features = ["serde"] }
crossterm = "0.28"
dirs = "5"
dotenvy = "0.15"
getopts = "0.2"
reqwest = { version = "0.12", default-features = false, features = ["json"] }
serde = { version = "1", features = ["derive"] }
serde_json = "1"
thiserror = "1"
tokio = { version = "1", features = ["macros", "rt-multi-thread", "fs"] }
