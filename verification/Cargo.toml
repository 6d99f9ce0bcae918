[package]
name = "two_key_keyboard"
version = "0.1.0"
edition = "2021"
publish = false

[dependencies]
cortex-m = "0.7"
cortex-m-rt = "0.7"
defmt = "0.3"
defmt-rtt = "0.4"
embedded-hal = "0.2"
panic-probe = { version = "0.3", features = ["print-defmt"] }
rp-pico = "0.7"
usb-device = "0.2"
usbd-hid = "0.6"
