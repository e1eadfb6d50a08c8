[package]
name = "drcom_pppoe"
version = "0.1.0"
edition = "2021"
publish = false

[dependencies]
md-5 = "*"
md4 = "*"
sha1 = "*"
