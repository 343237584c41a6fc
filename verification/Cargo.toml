[package]
name = "playcore"
version = "0.1.0"
edition = "2021"
publish = false

[dependencies]
crossbeam-channel = "*"
parking_lot = "*"
spin_sleep = "*"
log = "*"
thiserror = "*"
cstr = "*"
rsmpeg = "*"
rodio = "*"
cpal = "*"
