[package]
name = "bgit"
version = "0.1.0"
edition = "2021"
publish = false

[dependencies]
base64 = "=0.22.1"
clap = { version = "=4.6.7", features = ["derive"] }
clap_complete = "=4.6.11"
colored = "=3.1.1"
dialoguer = "=0.12.0"
env_logger = "=0.11.11"
git2 = "=0.21.0"
home = "=0.5.12"
indicatif = "=0.18.6"
log = "=0.4.35"
regex = "=1.13.1"
rig-core = { version = "=0.35.0", default-features = false }
serde = { version = "=1.0.229", features = ["derive"] }
serde_json = "=1.0.154"
toml = "=1.1.8"
which = "=8.0.6"
