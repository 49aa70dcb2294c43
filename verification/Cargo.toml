[package]
name = "awase"
version = "0.1.0"
edition = "2021"
publish = false

[dependencies]
anyhow = "=1.0.104"
core-foundation = "=0.10.1"
core-graphics = "=0.25.0"
env_logger = "=0.11.11"
log = "=0.4.35"
objc2 = "*"
objc2-app-kit = "*"
objc2-foundation = "*"
objc2-service-management = "*"
serde = { version = "=1.0.229", features = ["derive"] }
smallvec = "=1.16.4"
timed-fsm = "=0.5.0"
toml = "=1.1.8"
windows = { version = "*", features = ["Win32_Foundation", "Win32_UI_Accessibility", "Win32_UI_WindowsAndMessaging"] }
