[package]
name = "keylime_common"
version = "0.1.0"
edition = "2021"
publish = false

[dependencies]
rust-ini = "*"
libc = "*"
log = "*"
