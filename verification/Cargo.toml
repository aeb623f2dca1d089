[package]
name = "ciri"
version = "0.1.0"
edition = "2021"
publish = false

[dependencies]
anyhow = "1"
async-trait = "0.1"
clap = { version = "4", features = ["derive"] }
futures-util = "0.3"
indicatif = "0.17"
reqwest = { version = "0.12", default-features = false, features = ["json", "stream"] }
serde = { version = "1", features = ["derive"] }
serde_json = "1"
termimad = "*"
tokio = { version = "1", features = ["macros", "rt-multi-thread", "process", "io-util", "io-std", "net", "time"] }
