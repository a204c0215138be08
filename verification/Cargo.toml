[package]
name = "security_translocate"
version = "0.1.0"
edition = "2021"
publish = false

[dependencies]
core-foundation = "*"
libc = "*"
security-translocate-sys = "*"
