[package]
name = "self_cmd"
version = "0.1.0"
edition = "2021"
publish = false

[dependencies]
anyhow = "=1.0.104"
base64 = "=0.13.1"
bytes = "=1.12.1"
clap = "=3.2.25"
clipboard = "=0.5.0"
crossterm = "=0.25.0"
hocon = "=0.9.0"
json-patch = "=0.2.7"
pretty_env_logger = "=0.4.0"
reqwest = "=0.11.27"
serde = { version = "=1.0.229", features = ["derive"] }
serde_json = "=1.0.154"
serde_yaml = "=0.8.26"
tokio = { version = "=1.54.1", features = ["macros", "rt-multi-thread"] }
tui = "=0.19.0"
url = "=2.5.8"
warp = "=0.3.7"
