[package]
name = "hr_viewer"
version = "0.1.0"
edition = "2021"
publish = false

[dependencies]
btleplug = "0.4"
native-windows-gui = "1"
native-windows-derive = "1"
winapi = { version = "0.3", features = ["winuser", "wingdi"] }
