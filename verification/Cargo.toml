[package]
name = "plugin_bridge"
version = "0.1.0"
edition = "2021"
publish = false

[dependencies]
native-windows-gui = "1.0"
native-windows-derive = "1.0"
winapi = { version = "0.3", features = ["winuser"] }
