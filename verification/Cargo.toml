[package]
name = "nym_ethtx"
version = "0.1.0"
edition = "2021"
publish = false

[dependencies]
anyhow = "1"
ethers-core = "2"
ethers-middleware = "2"
ethers-providers = "2"
ethers-signers = "2"
futures = "0.3"
structopt = "0.3"
tokio = { version = "1", features = ["macros", "rt-multi-thread", "net", "time"] }
tokio-tungstenite = "*"
tracing = "0.1"
tracing-subscriber = { version = "0.3", features = ["env-filter"] }
