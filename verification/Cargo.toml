[package]
name = "parchbackup"
version = "0.1.0"
edition = "2021"
publish = false

[dependencies]
tar = "*"
flate2 = "*"
aes-gcm = "*"
hkdf = "*"
sha2 = "*"
chrono = "*"
walkdir = "*"
ctrlc = "*"
dialoguer = "*"
