[package]
name = "serial_chat"
version = "0.1.0"
edition = "2021"
publish = false

[dependencies]
crossterm = "*"
serial2 = "*"
