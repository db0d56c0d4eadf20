[package]
name = "dx3"
version = "0.1.0"
edition = "2021"
publish = false

[dependencies]
anyhow = "1"
ctrlc = "3"
env_logger = { version = "0.10", default-features = false }
hidapi = "2"
log = "0.4"
serde = { version = "1", features = ["derive"] }
serde_json = "1"
vigem-client = "0.1"
windows = { version = "0.48", features = ["Win32_Foundation", "Win32_UI_Input_KeyboardAndMouse"] }
