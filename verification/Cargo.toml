[package]
name = "efi_net"
version = "0.1.0"
edition = "2021"
publish = false

[dependencies]
dns-parser = "=0.8.0"
r-efi = "=7.1.0"
