[package]
name = "vpp_stat_client"
version = "0.1.0"
edition = "2021"
publish = false

[dependencies]
memmap = "*"
regex = "*"
uds = "*"
