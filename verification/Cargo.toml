[package]
name = "motion_glove"
version = "0.1.0"
edition = "2021"
publish = false

[dependencies]
usbd-hid = "=0.10.2"
libm = "=0.2.16"
heapless = "=0.9.3"
log = "=0.4.34"
static_cell = "=2.1.1"
embedded-io-async = "=0.7.0"
embassy-time = "=0.5.1"
embassy-sync = "=0.8.0"
embassy-futures = "=0.1.2"
embassy-executor = { version = "=0.9.1", features = ["arch-std", "executor-thread"] }
embassy-net = { version = "=0.9.1", features = ["tcp", "proto-ipv4", "medium-ethernet"] }
embassy-rp = { version = "=0.10.0", features = ["rp2040", "time-driver", "critical-section-impl"] }
embassy-usb = "=0.6.0"
embassy-usb-logger = "=0.6.0"
cyw43 = "=0.7.0"
cyw43-pio = "=0.10.0"
mpu9250-async = "=0.2.0"
defmt = "=1.2.0"
defmt-rtt = "=1.3.1"
panic-probe = "=1.0.0"
