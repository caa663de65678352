[package]
name = "ws2812_dma"
version = "0.1.0"
edition = "2021"
publish = false

[dependencies]
cast = { version = "0.2", default-features = false }
cortex-m = "0.6"
cortex-m-rtic = "0.5"
stm32f1xx-hal = { version = "0.7", features = ["stm32f103", "rt", "medium"] }
