[package]
name = "pi"
version = "0.1.0"
edition = "2021"
publish = false

[dependencies]
volatile = "0.2"
serial = "0.4"
structopt = "0.2"
structopt-derive = "0.2"
xmodem = "*"
