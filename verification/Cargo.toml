[package]
name = "arc_raiders_scripts"
version = "0.1.0"
edition = "2021"
publish = false

[dependencies]
anyhow = "1"
core-graphics = "0.23"
crossbeam-channel = "0.5"
enigo = "0.2"
parking_lot = "0.12"
rand = "=0.8.8"
rdev = "0.5"
winapi = { version = "0.3", features = ["shellapi", "timeapi"] }
