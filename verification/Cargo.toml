[package]
name = "rtwalk"
version = "0.1.0"
edition = "2021"
publish = false

[dependencies]
argon2 = "*"
rand = "*"
cuid2 = "*"
rusty_paseto = "*"
zxcvbn = "*"
