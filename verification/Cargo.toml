[package]
name = "meshsim"
version = "0.1.0"
edition = "2021"
publish = false

[dependencies]
rand = "0.8"
meshtastic = "0.1"
bollard = "0.15"
tokio = { version = "1", features = ["full"] }
tokio-util = "0.7"
futures-util = "0.3"
log = "0.4"
fern = "0.6"
humantime = "2"
anyhow = "1"
