[package]
name = "chip8"
version = "0.1.0"
edition = "2021"
publish = false

[dependencies]
crossterm = "0.27"
num = "0.4"
rand = "0.8"
