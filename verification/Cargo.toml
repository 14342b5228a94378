[package]
name = "ff7_lib"
version = "0.1.0"
edition = "2021"
publish = false

[dependencies]
byteorder = "=1.5.0"
flate2 = "=1.1.10"
log = "=0.4.34"
parking_lot = "=0.12.5"
process-memory = "=0.5.0"
serde = { version = "=1.0.229", features = ["derive"] }
sysinfo = "=0.30.13"
winapi = { version = "=0.3.9", features = ["memoryapi", "winnt"] }
