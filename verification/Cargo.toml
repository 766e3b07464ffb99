[package]
name = "rumahl_platform"
version = "0.1.0"
edition = "2021"
publish = false

[dependencies]
sha2 = "0.10"
aes-gcm = "0.10"
getrandom = "0.3"
zeroize = "1"
libc = "0.2"
