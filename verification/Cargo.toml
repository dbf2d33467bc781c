[package]
name = "bastion_tunnel"
version = "0.1.0"
edition = "2021"
publish = false

[dependencies]
azure_core = "=0.14.0"
azure_identity = "=0.14.0"
azure_mgmt_network = "=0.14.0"
cfg-if = "=1.0.5"
clap = { version = "=4.6.7", features = ["derive"] }
futures = "=0.3.34"
reqwest = { version = "=0.12.28", features = ["json"] }
serde = { version = "=1.0.229", features = ["derive"] }
tokio = { version = "=1.54.1", features = ["full"] }
tokio-tungstenite = { version = "=0.30.0", features = ["native-tls"] }
url = "=2.5.8"
