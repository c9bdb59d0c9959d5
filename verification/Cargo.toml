[package]
name = "yoyopod"
version = "0.1.0"
edition = "2021"
publish = false

[dependencies]
anyhow = "1"
clap = { version = "4", features = ["derive"] }
rand = "0.8"
serde = { version = "1", features = ["derive"] }
serde_json = "1"
serde_yaml = "0.9"
time = { version = "0.3", features = ["formatting", "local-offset"] }
tiny_http = "0.12"
uuid = { version = "1", features = ["v4"] }
zbus = "4"
zvariant = "4"
