[package]
name = "sandbox_fs"
version = "0.1.0"
edition = "2021"
publish = false

[dependencies]
aes = "0.8"
base64 = "0.22"
cbc = { version = "0.1", features = ["alloc", "block-padding"] }
fastrand = "2"
hex = "0.4"
md-5 = "0.10"
rand = "0.8"
rsa = "0.9"
sha2 = "0.10"
