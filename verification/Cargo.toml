[package]
name = "bubblegumsdk_native"
version = "0.1.0"
edition = "2021"
publish = false

[dependencies]
mpl-bubblegum = "1"
rustler = "*"
solana-program = "1"
solana-sdk = "1"
spl-account-compression = "0.3"
spl-noop = "0.2"
