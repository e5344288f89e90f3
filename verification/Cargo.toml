[package]
name = "uart_serial"
version = "0.1.0"
edition = "2021"

[dependencies]
embedded-hal = "0.2"
k210-hal = "*"
lazy_static = "1"
spin = "*"
