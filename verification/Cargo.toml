[package]
name = "smart_guard"
version = "0.1.0"
edition = "2021"
publish = false

[dependencies]
cortex-m = "*"
embassy-executor = "*"
embassy-rp = "*"
embassy-time = "*"
embassy-usb-logger = "*"
lcd-lcm1602-i2c = "*"
log = "*"
ufmt = "*"
ufmt-write = "*"
