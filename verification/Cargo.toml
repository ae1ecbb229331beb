[package]
name = "yubihsm"
version = "0.1.0"
edition = "2021"
publish = false

[dependencies]
aes = "0.8"
cbc = { version = "0.1", features = ["alloc", "block-padding"] }
cmac = "0.7"
getrandom = "0.2"
serde = { version = "1", features = ["derive"] }
subtle = "2"
uuid = { version = "1", features = ["v4"] }
zeroize = "1"
