[package]
name = "stickdeck"
version = "0.1.0"
edition = "2021"
publish = false

[dependencies]
anyhow = "=1.0.104"
clap = { version = "=4.6.7", features = ["derive"] }
env_logger = "=0.11.11"
input-linux = "=0.7.1"
local-ip-address = "=0.6.13"
log = "=0.4.34"
serde = { version = "=1.0.229", features = ["derive"] }
serde_json = "=1.0.154"
steamworks = "=0.13.1"
steamworks-sys = "=0.13.0"
vigem-client = "=0.1.4"
windows = { version = "=0.58.0", features = ["Win32_UI_Input_KeyboardAndMouse"] }
