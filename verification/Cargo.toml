[package]
name = "usb_cdc_echo"
version = "0.1.0"
edition = "2021"
publish = false

[dependencies]
ch32-hal = "*"
embassy-executor = "*"
embassy-futures = "*"
embassy-time = "*"
embassy-usb = "*"
panic-halt = "*"
