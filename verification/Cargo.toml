[package]
name = "principal"
version = "0.1.0"
edition = "2021"
publish = false

[dependencies]
anyhow = "1"
bollard = "0.17"
clap = { version = "4", features = ["derive"] }
duration-string = "*"
netstat2 = "*"
pcap = "2"
tokio = { version = "1", features = ["full"] }
tracing = "0.1"
tracing-subscriber = { version = "0.3", features = ["env-filter"] }
