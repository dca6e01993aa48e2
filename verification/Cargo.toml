[package]
name = "termpipe"
version = "0.1.0"
edition = "2021"
publish = false

[dependencies]
anyhow = "1"
crossbeam-channel = "0.5"
filedescriptor = "0.8"
lazy_static = "1"
libc = "0.2"
log = "0.4"
serde = { version = "1", features = ["derive"] }
termwiz = { version = "*", features = ["use_serde"] }
winapi = { version = "0.3", features = ["winsock2"] }
