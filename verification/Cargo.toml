[package]
name = "oculed"
version = "0.1.0"
edition = "2021"
publish = false

[dependencies]
anyhow = "=1.0.104"
chrono = "=0.4.45"
fontdue = "=0.7.3"
hotkey = "=0.3.1"
image = { version = "=0.24.9", default-features = false, features = ["png", "gif"] }
lazy_static = "=1.5.1"
rand = "=0.8.8"
windows = { version = "=0.59.0", features = ["Media_Control", "Win32_System_SystemInformation", "Foundation"] }
wmi = "=0.18.4"
