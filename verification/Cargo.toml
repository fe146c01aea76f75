[package]
name = "naia_shared"
version = "0.1.0"
edition = "2021"
publish = false

[dependencies]
byteorder = "1"
js-sys = "0.3"
