[package]
name = "dfu-core"
version = "0.1.0"
edition = "2021"
publish = false

[dependencies]
bytes = "1"
displaydoc = "0.2"
futures = "0.3"
libusb-sys = "0.2"
log = "0.4"
pretty-hex = "0.4"
thiserror = "1"
