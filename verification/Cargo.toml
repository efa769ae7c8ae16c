[package]
name = "clap_wrapper"
version = "0.1.0"
edition = "2021"
publish = false

[dependencies]
clap-sys = "*"
crossbeam = "*"
lazy_static = "*"
midi-consts = "*"
parking_lot = "*"
