[package]
name = "hid_devices"
version = "0.1.0"
edition = "2021"
publish = false

[dependencies]
regex = "1"
winapi = { version = "0.3", features = ["cguid", "errhandlingapi", "guiddef", "hidclass", "minwindef", "ntdef", "setupapi", "winerror"] }
