[package]
name = "ch347usbjtag"
version = "0.1.0"
edition = "2021"
publish = false

[dependencies]
bitvec = "1"
nusb = "0.1"
thiserror = "2"
tracing = "0.1"
futures-lite = "2"
async-io = "2"
