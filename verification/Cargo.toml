[package]
name = "xcm_mock"
version = "0.1.0"
edition = "2021"
publish = false

[dependencies]
parity-scale-codec = "3"
sp-io = "28"
staging-xcm = "5"
