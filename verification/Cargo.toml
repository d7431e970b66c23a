[package]
name = "whodis"
version = "0.1.0"
edition = "2021"
publish = false

[dependencies]
clap = { version = "=4.6.7", features = ["derive"] }
color-eyre = "=0.6.5"
futures = "=0.3.34"
hickory-client = { version = "=0.25.2", features = ["dnssec-ring"] }
hickory-proto = { version = "=0.25.2", features = ["dnssec-ring"] }
local-ip-address = "=0.6.13"
rand = "=0.9.5"
rustls-pki-types = "=1.15.1"
tokio = { version = "=1.54.1", features = ["macros", "rt-multi-thread", "net", "time"] }
tracing = "=0.1.44"
tracing-subscriber = { version = "=0.3.23", features = ["env-filter"] }

[dev-dependencies]
rsa = { version = "0.9", features = ["getrandom"] }
