[package]
name = "pip-switch-core"
version = "0.1.0"
edition = "2021"
publish = false

[dependencies]
hidapi = { version = "=2.6.7", default-features = false, features = ["linux-native-basic-udev"] }
serde = { version = "=1.0.229", features = ["derive"] }
toml = "=0.8.23"
dirs = "=5.0.1"
thiserror = "=1.0.69"
clap = { version = "=4.6.7", features = ["derive"] }
tracing = "=0.1.44"
tracing-subscriber = { version = "=0.3.23", features = ["env-filter"] }
global-hotkey = "=0.9.0"
tray-icon = "=0.26.1"
