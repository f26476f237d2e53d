[package]
name = "rv32m1_ri5cy_hal"
version = "0.1.0"
edition = "2021"
publish = false

[dependencies]
embedded-hal = "*"
nb = "*"
embedded-time = "*"
