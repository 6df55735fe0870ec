[package]
name = "sediment"
version = "0.1.0"
edition = "2021"
publish = false

[dependencies]
sha1 = "*"
zeroize = "*"
log = "*"

[dev-dependencies]
xorf = "*"
