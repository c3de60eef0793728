[package]
name = "peppa"
version = "0.1.0"
edition = "2021"
publish = false

[dependencies]
crossfont = "*"
glutin = "0.29"
gl = "*"
log = "*"
pretty_env_logger = "*"
