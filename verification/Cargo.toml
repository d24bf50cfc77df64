[package]
name = "emplace"
version = "0.1.0"
edition = "2021"
publish = false

[dependencies]
dynify = "*"
pin-init = "*"
pollster = "*"
