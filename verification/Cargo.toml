[package]
name = "povorotnik"
version = "0.1.0"
edition = "2021"
publish = false

[dependencies]
anyhow = "*"
btleplug = "=0.13.4"
futures = "*"
libdbus-sys = { version = "*", features = ["vendored"] }
log = "*"
simple_logger = "*"
tokio = { version = "*", features = ["rt-multi-thread", "macros"] }
uuid = "*"
windows-sys = { version = "=0.61.2", features = ["Win32_Foundation", "Win32_Graphics_Gdi"] }
