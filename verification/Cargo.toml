[package]
name = "cputest"
version = "0.1.0"
edition = "2021"
publish = false

[dependencies]
iced = { version = "0.3", features = ["smol"] }
sysinfo = "0.17"
