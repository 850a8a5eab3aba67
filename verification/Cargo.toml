[package]
name = "smol_enc28j60"
version = "0.1.0"
edition = "2021"
publish = false

[dependencies]
embedded-hal = "=0.2.7"
enc28j60 = "=0.2.1"
smoltcp = "0.8"
