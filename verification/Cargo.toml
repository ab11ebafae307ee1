[package]
name = "lockbox"
version = "0.1.0"
edition = "2021"
publish = false

[dependencies]
aes-gcm = "0.10"
base64 = "0.21"
clap = { version = "4", features = ["derive"] }
keyring = "2"
rand = "0.8"
thiserror = "1"
zeroize = "1"
