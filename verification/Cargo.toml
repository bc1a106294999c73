[package]
name = "usbd_dfu"
version = "0.1.0"
edition = "2021"
publish = false

[dependencies]
sha1 = "=0.6.1"
usb-device = "=0.2.9"
cortex-m = "=0.7.10"
cortex-m-rt = "=0.6.15"
embedded-hal = "=0.2.7"
stm32f4xx-hal = { version = "=0.9.0", features = ["stm32f401", "usb_fs"] }
pin-utils = "0.1"
futures = { version = "0.3", default-features = false }
