[package]
name = "fluidlite"
version = "0.2.1"
edition = "2021"

[dependencies]
log = "0.4"
