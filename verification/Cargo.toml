[package]
name = "starry_api"
version = "0.1.0"
edition = "2021"
publish = false

[dependencies]
axerrno = "=0.2.2"
axfs = "0.3.0-preview.3"
axlog = "0.3.0-preview.3"
axtask = "0.3.0-preview.3"
bitflags = "=2.13.2"
linux-raw-sys = "=0.12.1"
