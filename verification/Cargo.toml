[package]
name = "tactics_trainer"
version = "1.0.0"
edition = "2021"
publish = false

[dependencies]
anyhow = "=1.0.104"
clap = { version = "=4.6.7", features = ["derive"] }
colored = "=3.1.1"
prettytable-rs = "=0.10.0"
reqwest = { version = "=0.12.28", default-features = false, features = ["json", "rustls-tls"] }
rprompt = "=2.2.0"
serde = { version = "=1.0.229", features = ["derive"] }
shakmaty = "=0.30.1"
tokio = { version = "=1.54.1", features = ["macros", "rt-multi-thread"] }
