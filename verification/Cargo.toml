[package]
name = "rusty_merge"
version = "0.1.0"
edition = "2021"
publish = false

[dependencies]
anyhow = "1"
clap = { version = "=3.2.25", features = ["cargo"] }
clap_complete = "=3.2.5"
clokwerk = "=0.3.5"
daemonize-me = "=2.0.4"
directories-next = "=2.0.0"
env_logger = "=0.9.3"
log = "0.4"
nix = "=0.23.2"
notify-rust = "=4.18.2"
octocrab = "0.16"
serde = { version = "1", features = ["derive"] }
serde_json = "=1.0.154"
tokio = { version = "=1.43.4", features = ["full"] }
toml = "=0.5.11"
whoami = "=1.6.1"
