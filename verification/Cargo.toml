[package]
name = "crypto_ioctls"
version = "0.1.0"
edition = "2021"
publish = false

[dependencies]
libc = "*"
vmm-sys-util = "*"
