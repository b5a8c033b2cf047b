[package]
name = "asset_overlay"
version = "0.1.0"
edition = "2021"
publish = false

[dependencies]
cxx = "=1.0.205"
libc = "=0.2.191"
log = "=0.4.34"
ndk = "=0.9.0"
ndk-sys = { version = "=0.6.0", features = ["test"] }
once_cell = "=1.21.4"
scroll = "=0.12.0"
