[package]
name = "ra6m5_hal"
version = "0.1.0"
edition = "2021"
publish = false

[dependencies]
ra6m5-pac = { version = "=0.3.1", features = ["sysc", "mstp", "fcache", "pfs", "port0", "port1", "port2", "port3", "port4", "port5", "port6", "port7", "port8", "port9", "porta", "portb", "usbfs", "usbhs", "icu", "flad", "rtc", "dbg"] }
cortex-m = "=0.7.10"
critical-section = "=1.2.0"
embedded-hal = "=1.0.0"
usb-device = "=0.3.2"
