[package]
name = "deploy_rs"
version = "0.1.0"
edition = "2021"
publish = false

[dependencies]
yn = "*"
clap = { version = "*", features = ["derive"] }
flexi_logger = "*"
futures-util = "*"
log = "*"
rpassword = "*"
serde = { version = "*", features = ["derive"] }
serde_json = "*"
thiserror = "*"
tokio = { version = "*", features = ["full"] }
toml = "*"
