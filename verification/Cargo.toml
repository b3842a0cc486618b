[package]
name = "wrs32"
version = "0.1.0"
edition = "2021"
publish = false

[dependencies]
windows = { version = "=0.61.3", features = ["Win32_Foundation", "Win32_Security", "Win32_Security_Authorization", "Win32_System_Threading"] }
windows-core = "=0.61.2"
