[package]
name = "sounding-validate"
version = "0.1.0"
edition = "2021"
publish = false

[dependencies]
metfor = "=0.7.6"
optional = "=0.5.0"
sounding-base = "=0.11.1"
