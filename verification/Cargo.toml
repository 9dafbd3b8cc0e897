[package]
name = "hasher"
version = "0.1.0"
edition = "2021"
publish = false

[dependencies]
argon2rs = "0.2"
byteorder = "1"
hyper = "0.10"
num_cpus = "1"
rand = "0.3"
