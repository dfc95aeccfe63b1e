[package]
name = "desktopmcp"
version = "0.1.0"
edition = "2021"
publish = false

[dependencies]
anyhow = "=1.0.104"
ashpd = { version = "=0.13.13", features = ["frontend"] }
async-recursion = "=1.2.0"
axum = "=0.8.9"
base64 = "=0.23.1"
clap = { version = "=4.6.7", features = ["derive"] }
futures-util = "=0.3.34"
pipewire = "=0.10.1"
rmcp = { version = "=3.8.0", features = ["server", "transport-io", "transport-streamable-http-server"] }
roxmltree = "=0.21.2"
schemars = "=1.2.3"
serde = { version = "=1.0.229", features = ["derive"] }
serde_json = "=1.0.154"
tokio = { version = "=1.54.1", features = ["full"] }
tokio-stream = "=0.1.19"
tokio-util = "=0.7.20"
tracing = "=0.1.44"
tracing-subscriber = { version = "=0.3.23", features = ["env-filter"] }
uuid = { version = "=1.29.0", features = ["v4"] }
zbus = { version = "=5.19.0", default-features = false, features = ["tokio"] }
zvariant = "=5.15.1"
