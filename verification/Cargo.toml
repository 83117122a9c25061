[package]
name = "stm32h750xx_mt25_ql512_dfm"
version = "0.1.0"
edition = "2021"
publish = false

[dependencies]
flash-algorithm = { version = "=0.7.0", default-features = false, features = ["erase-chip"] }
