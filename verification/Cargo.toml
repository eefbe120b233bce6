[package]
name = "pengmai_shell"
version = "0.1.0"
edition = "2021"
publish = false

[dependencies]
notify-rust = "=4.18.2"
rdev = "=0.5.3"
serde = { version = "=1.0.229", features = ["derive"] }
serde_json = "=1.0.154"
windows = { version = "=0.62.2", features = ["Win32_UI_Shell"] }
