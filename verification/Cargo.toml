[package]
name = "mac_clip"
version = "0.1.0"
edition = "2021"
publish = false

[dependencies]
serde = "1"
serde_json = "1"
arboard = { version = "*", default-features = false }
enigo = "=0.1.3"
global-hotkey = "*"
directories = "*"
tokio = { version = "1", default-features = false, features = ["rt-multi-thread", "sync"] }
env_logger = { version = "*", default-features = false }
log = "*"
