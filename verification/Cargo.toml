[package]
name = "lifx_api_server"
version = "0.1.0"
edition = "2021"
publish = false

[dependencies]
lifx-rs = "*"
rand = "0.8"
serde = { version = "1", features = ["derive"] }
serde_json = "1"
rouille = "3"
get_if_addrs = "0.5"
log = "0.4"
env_logger = "*"
sudo = "*"
failure = "0.1"
thiserror = "1"
palette = "0.7"
colors-transform = "0.2"
lazy_static = "1"
