[package]
name = "vanity_address"
version = "0.1.0"
edition = "2021"
publish = false

[dependencies]
bitcoin = "0.29"
getrandom = "0.2"
regex = "1"
clap = "2"
indicatif = "0.15"
num_cpus = "1"
