[package]
name = "powertools"
version = "0.1.0"
edition = "2021"
publish = false

[dependencies]
regex = "=1.13.1"
serde = { version = "=1.0.229", features = ["derive"] }
serde_json = "=1.0.154"
log = "=0.4.35"
simplelog = "=0.12.2"
usdpl-back = "=0.10.1"
sysfuss = "=0.3.0"
libryzenadj = "=0.15.0"
async-trait = "=0.1.92"
tokio = { version = "=1.54.1", features = ["rt", "sync"] }
