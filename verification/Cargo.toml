[package]
name = "usbd_class_tester"
version = "0.1.0"
edition = "2021"
publish = false

[dependencies]
usb-device = "*"
