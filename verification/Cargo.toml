[package]
name = "twis_dma"
version = "0.1.0"
edition = "2021"
publish = false

[dependencies]
cortex-m = { version = "=0.7.10", features = ["critical-section-single-core"] }
cortex-m-rtic = "=1.1.4"
nrf52840-hal = { version = "=0.19.0", features = ["rt"] }
rtt-target = "=0.6.2"
