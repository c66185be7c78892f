[package]
name = "flash-rover"
version = "0.3.0"
edition = "2021"
publish = false

[dependencies]
byte-unit = "4"
clap = "2"
j4rs = "*"
path-clean = "*"
path-slash = "*"
tempfile = "3"
