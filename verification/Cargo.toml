[package]
name = "sdfat"
version = "0.1.0"
edition = "2021"
publish = false

[dependencies]
embedded-sdmmc = "0.3.0"
cortex-m = "0.7"
cortex-m-rt = "0.7"
panic-halt = "0.2"
stm32f4xx-hal = { version = "0.13", features = ["stm32f411"] }
