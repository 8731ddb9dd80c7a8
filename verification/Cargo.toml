[package]
name = "tasproxy"
version = "0.1.0"
edition = "2021"
publish = false

[dependencies]
async-stream = "*"
base64 = "=0.23.1"
color-eyre = "*"
dashmap = "=6.2.1"
dotenv = "*"
futures-util = "*"
hostname = "*"
json = "=0.12.4"
pin-utils = "*"
rumqttc = "=0.25.1"
secretfile = "=0.1.1"
serde = { version = "*", features = ["derive"] }
tokio = { version = "*", features = ["rt-multi-thread", "macros", "signal", "net", "time"] }
tokio-stream = { version = "*", features = ["net"] }
toml = "*"
warp = { version = "=0.4.3", features = ["server"] }
warp-reverse-proxy = "=2.0.0"
